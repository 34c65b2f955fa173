//! Constants of the engine.

use ngtcp2::config::{
    NGTCP2_DEFAULT_ACK_DELAY_EXPONENT, NGTCP2_DEFAULT_ACTIVE_CONNECTION_ID_LIMIT,
    NGTCP2_DEFAULT_MAX_RECV_UDP_PAYLOAD_SIZE,
};
use ngtcp2::settings::{RawSettings, NGTCP2_CALLBACKS_VERSION, NGTCP2_SETTINGS_VERSION};
use ngtcp2::{
    ngtcp2_version, TransportParams, MIN_INITIAL_DATAGRAM_SIZE, MIN_INITIAL_DCIDLEN,
    NGTCP2_VERSION, WRITE_STREAM_FLAG_MORE,
};

#[test]
fn lib_test_ngtcp2_version() {
    let version = ngtcp2_version(Some(NGTCP2_VERSION));
    assert_ne!(version, "unknown");
    assert_eq!(version, NGTCP2_VERSION);
}

#[test]
fn a_missing_version_is_unknown() {
    assert_eq!(ngtcp2_version(None), "unknown");
    assert_eq!(NGTCP2_VERSION, "1.25.90");
}

#[test]
fn test_callbacks_version() {
    assert_eq!(NGTCP2_CALLBACKS_VERSION, 6);
}

#[test]
fn test_settings_version() {
    assert_eq!(NGTCP2_SETTINGS_VERSION, 4);
}

#[test]
fn test_settings_default_versioned() {
    let settings = RawSettings::engine_default();
    assert_eq!(settings.max_tx_udp_payload_size, 1452);
    assert_ne!(settings.initial_rtt, 0);
}

#[test]
fn test_transport_params_default_versioned() {
    let params = TransportParams::engine_default();
    assert_eq!(params.max_udp_payload_size, NGTCP2_DEFAULT_MAX_RECV_UDP_PAYLOAD_SIZE as u64);
    assert_eq!(params.ack_delay_exponent, NGTCP2_DEFAULT_ACK_DELAY_EXPONENT as u64);
    assert_eq!(
        params.active_connection_id_limit,
        NGTCP2_DEFAULT_ACTIVE_CONNECTION_ID_LIMIT as u64
    );
}

#[test]
fn limits_of_an_initial_packet() {
    assert_eq!(MIN_INITIAL_DATAGRAM_SIZE, 1200);
    assert_eq!(MIN_INITIAL_DCIDLEN, 8);
    assert_eq!(WRITE_STREAM_FLAG_MORE, 1);
}
