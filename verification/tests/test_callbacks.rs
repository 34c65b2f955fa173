//! The callbacks that clients and servers install.

use ngtcp2::callbacks::{create_client_callbacks, create_server_callbacks, Callbacks};

fn assert_application_callbacks_set(callbacks: &Callbacks) {
    assert!(callbacks.handshake_completed);
    assert!(callbacks.handshake_confirmed);
    assert!(callbacks.stream_open);
    assert!(callbacks.stream_close2);
    assert!(callbacks.stream_reset);
    assert!(callbacks.recv_stop_sending);
    assert!(callbacks.extend_max_stream_data);
    assert!(callbacks.extend_max_local_streams_bidi);
    assert!(callbacks.extend_max_local_streams_uni);
    assert!(callbacks.recv_stream_data);
    assert!(callbacks.recv_datagram);
    assert!(callbacks.recv_stateless_reset2);
    assert!(callbacks.tls_early_data_rejected);
}

#[test]
fn test_create_client_callbacks() {
    let callbacks = create_client_callbacks();
    assert!(callbacks.client_initial);
    assert!(callbacks.recv_crypto_data);
    assert!(callbacks.encrypt);
    assert!(callbacks.decrypt);
    assert!(callbacks.hp_mask);
    assert!(callbacks.rand);
    assert!(callbacks.get_new_connection_id);
    assert!(!callbacks.recv_client_initial);

    assert_application_callbacks_set(&callbacks);
}

#[test]
fn test_create_server_callbacks() {
    let callbacks = create_server_callbacks();
    assert!(callbacks.recv_client_initial);
    assert!(callbacks.recv_crypto_data);
    assert!(callbacks.encrypt);
    assert!(callbacks.decrypt);
    assert!(callbacks.hp_mask);
    assert!(callbacks.rand);
    assert!(callbacks.get_new_connection_id);
    assert!(!callbacks.client_initial);

    assert_application_callbacks_set(&callbacks);
}

#[test]
fn only_the_opening_of_a_connection_differs() {
    let client = create_client_callbacks();
    let mut server = create_server_callbacks();
    server.client_initial = true;
    server.recv_client_initial = false;
    server.recv_retry = true;
    assert_eq!(client, server);
}
