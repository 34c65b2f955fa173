//! Transport parameters.

use ngtcp2::addr::{cid_from_raw, cid_to_raw, sockaddr_from_raw};
use ngtcp2::config::{duration_nanos, RawTransportParams};
use ngtcp2::types::{Duration, SocketAddr};
use ngtcp2::{ConnectionId, RemoteTransportParams, StatelessResetToken, TransportParams};

fn cid(byte: u8) -> ConnectionId {
    ConnectionId::new(&[byte; 8]).expect("a value")
}

#[test]
fn defaults_of_the_library() {
    for params in [TransportParams::new(), TransportParams::default()] {
        assert_eq!(params.initial_max_stream_data_bidi_local, 1024 * 1024);
        assert_eq!(params.initial_max_stream_data_bidi_remote, 1024 * 1024);
        assert_eq!(params.initial_max_stream_data_uni, 1024 * 1024);
        assert_eq!(params.initial_max_data, 10 * 1024 * 1024);
        assert_eq!(params.initial_max_streams_bidi, 100);
        assert_eq!(params.initial_max_streams_uni, 100);
        assert_eq!(params.max_idle_timeout, 30_000_000_000);
        assert_eq!(params.active_connection_id_limit, 8);
        assert_eq!(params.max_datagram_frame_size, 0);
        assert!(!params.disable_active_migration);
        assert!(!params.grease_quic_bit);
        assert!(!params.reset_stream_at);
        assert!(!params.has_original_dcid());
    }
}

#[test]
fn builders_change_one_parameter_each() {
    let params = TransportParams::new()
        .with_max_idle_timeout(Duration::from_secs(5))
        .with_initial_max_data(1)
        .with_initial_max_stream_data_bidi_local(2)
        .with_initial_max_stream_data_bidi_remote(3)
        .with_initial_max_stream_data_uni(4)
        .with_max_streams_bidi(5)
        .with_max_streams_uni(6)
        .with_active_connection_id_limit(7)
        .with_max_ack_delay(Duration::from_millis(8))
        .with_ack_delay_exponent(9)
        .with_max_udp_payload_size(1300)
        .with_disable_active_migration(true)
        .with_grease_quic_bit(true)
        .with_datagram(65535)
        .with_reset_stream_at(true)
        .with_stateless_reset_token(&StatelessResetToken::from_bytes([9; 16]))
        .with_original_dcid(&cid(1))
        .with_retry_scid(&cid(2));
    assert_eq!(params.max_idle_timeout, 5_000_000_000);
    assert_eq!(params.initial_max_data, 1);
    assert_eq!(params.initial_max_stream_data_bidi_local, 2);
    assert_eq!(params.initial_max_stream_data_bidi_remote, 3);
    assert_eq!(params.initial_max_stream_data_uni, 4);
    assert_eq!(params.initial_max_streams_bidi, 5);
    assert_eq!(params.initial_max_streams_uni, 6);
    assert_eq!(params.active_connection_id_limit, 7);
    assert_eq!(params.max_ack_delay, 8_000_000);
    assert_eq!(params.ack_delay_exponent, 9);
    assert_eq!(params.max_udp_payload_size, 1300);
    assert!(params.disable_active_migration);
    assert!(params.grease_quic_bit);
    assert_eq!(params.max_datagram_frame_size, 65535);
    assert!(params.reset_stream_at);
    assert_eq!(params.stateless_reset_token.expect("a value").as_bytes(), &[9; 16]);
    assert_eq!(params.original_dcid, Some(cid(1)));
    assert_eq!(params.retry_scid, Some(cid(2)));
    assert!(params.preferred_addr.is_none());
}

#[test]
fn preferred_addresses_of_both_families_add_up() {
    let token = StatelessResetToken::from_bytes([1; 16]);
    let v4 = SocketAddr::V4 { ip4: 0xc000_0201, port: 443 };
    let v6 = SocketAddr::V6 { ip6: 0x2001_0db8 << 96 | 1, port: 444, flowinfo: 7, scope_id: 8 };
    let params = TransportParams::new()
        .with_preferred_address(&cid(1), v4, &token)
        .with_preferred_address(&cid(2), v6, &StatelessResetToken::from_bytes([2; 16]));
    let preferred = params.preferred_addr.expect("a value");
    assert_eq!(preferred.cid, cid(2));
    assert_eq!(preferred.stateless_reset_token.as_bytes(), &[2; 16]);
    assert_eq!(preferred.ipv4.and_then(|raw| sockaddr_from_raw(&raw)), Some(v4));
    let raw = preferred.ipv6.expect("a value");
    assert_eq!((raw.flowinfo, raw.scope_id), (0, 0));
    assert_eq!(
        sockaddr_from_raw(&raw),
        Some(SocketAddr::V6 { ip6: 0x2001_0db8 << 96 | 1, port: 444, flowinfo: 0, scope_id: 0 })
    );
}

#[test]
fn long_timeouts_stay_finite() {
    assert_eq!(duration_nanos(Duration::from_secs(1)), 1_000_000_000);
    assert_eq!(duration_nanos(Duration { nanos: u64::MAX as u128 }), u64::MAX);
    assert_eq!(duration_nanos(Duration { nanos: u64::MAX as u128 + 1 }), u64::MAX - 1);
    assert_eq!(duration_nanos(Duration::from_secs(u64::MAX)), u64::MAX - 1);
}

#[test]
fn parameters_of_the_peer_keep_every_field() {
    let mut raw = RawTransportParams {
        initial_max_data: 1,
        initial_max_stream_data_bidi_local: 2,
        initial_max_stream_data_bidi_remote: 3,
        initial_max_stream_data_uni: 4,
        initial_max_streams_bidi: 5,
        initial_max_streams_uni: 6,
        max_idle_timeout: 7,
        max_udp_payload_size: 8,
        active_connection_id_limit: 9,
        ack_delay_exponent: 10,
        max_ack_delay: 11,
        max_datagram_frame_size: 12,
        disable_active_migration: 1,
        grease_quic_bit: 2,
        reset_stream_at: 0,
        retry_scid_present: 1,
        retry_scid: cid_to_raw(&cid(3)),
        original_dcid_present: 0,
        original_dcid: cid_to_raw(&ConnectionId::empty()),
        stateless_reset_token_present: 0,
        stateless_reset_token: [0; 16],
        preferred_addr: None,
    };
    let params = RemoteTransportParams::from_raw(&raw);
    assert_eq!(params.initial_max_data, 1);
    assert_eq!(params.initial_max_stream_data_bidi_local, 2);
    assert_eq!(params.initial_max_stream_data_bidi_remote, 3);
    assert_eq!(params.initial_max_stream_data_uni, 4);
    assert_eq!(params.initial_max_streams_bidi, 5);
    assert_eq!(params.initial_max_streams_uni, 6);
    assert_eq!(params.max_idle_timeout, Duration::from_nanos(7));
    assert_eq!(params.max_udp_payload_size, 8);
    assert_eq!(params.active_connection_id_limit, 9);
    assert_eq!(params.ack_delay_exponent, 10);
    assert_eq!(params.max_ack_delay, Duration::from_nanos(11));
    assert_eq!(params.max_datagram_frame_size, 12);
    assert!(params.disable_active_migration);
    assert!(params.grease_quic_bit);
    assert!(!params.reset_stream_at);
    assert_eq!(params.retry_scid, Some(cid(3)));
    raw.retry_scid_present = 0;
    assert_eq!(RemoteTransportParams::from_raw(&raw).retry_scid, None);
}

#[test]
fn clones_of_parameters_keep_every_field() {
    let addr = SocketAddr::V4 { ip4: 1, port: 2 };
    let params = TransportParams::new()
        .with_original_dcid(&cid(1))
        .with_retry_scid(&cid(2))
        .with_datagram(7)
        .with_preferred_address(&cid(3), addr, &StatelessResetToken::from_bytes([4; 16]));
    let copy = params.clone();
    assert_eq!(copy.original_dcid, params.original_dcid);
    assert_eq!(copy.retry_scid, params.retry_scid);
    assert_eq!(copy.max_datagram_frame_size, 7);
    let preferred = copy.preferred_addr.expect("a value");
    assert_eq!(preferred.cid, cid(3));
    assert_eq!(preferred.ipv4.and_then(|raw| sockaddr_from_raw(&raw)), Some(addr));
}

#[test]
fn the_engine_takes_every_parameter() {
    let v6 = SocketAddr::V6 { ip6: 9, port: 443, flowinfo: 1, scope_id: 2 };
    let params = TransportParams::new()
        .with_max_idle_timeout(Duration::from_millis(5))
        .with_initial_max_data(1)
        .with_initial_max_stream_data_bidi_local(2)
        .with_initial_max_stream_data_bidi_remote(3)
        .with_initial_max_stream_data_uni(4)
        .with_max_streams_bidi(5)
        .with_max_streams_uni(6)
        .with_grease_quic_bit(true)
        .with_stateless_reset_token(&StatelessResetToken::from_bytes([7; 16]))
        .with_original_dcid(&cid(1))
        .with_preferred_address(&cid(3), v6, &StatelessResetToken::from_bytes([4; 16]));
    let raw = params.to_raw();
    assert_eq!((raw.max_idle_timeout, raw.initial_max_data), (5_000_000, 1));
    assert_eq!(raw.initial_max_stream_data_bidi_local, 2);
    assert_eq!(raw.initial_max_stream_data_bidi_remote, 3);
    assert_eq!((raw.initial_max_stream_data_uni, raw.initial_max_streams_bidi), (4, 5));
    assert_eq!((raw.initial_max_streams_uni, raw.grease_quic_bit), (6, 1));
    assert_eq!((raw.disable_active_migration, raw.reset_stream_at), (0, 0));
    assert_eq!((raw.stateless_reset_token_present, raw.stateless_reset_token), (1, [7; 16]));
    assert_eq!((raw.original_dcid_present, raw.retry_scid_present), (1, 0));
    assert_eq!(cid_from_raw(&raw.original_dcid), Some(cid(1)));
    assert_eq!(raw.retry_scid.datalen, 0);
    let read = RemoteTransportParams::from_raw(&raw);
    assert_eq!((read.initial_max_data, read.retry_scid), (1, None));
    let preferred = raw.preferred_addr.expect("a value");
    assert_eq!(cid_from_raw(&preferred.cid), Some(cid(3)));
    assert!(preferred.ipv4.is_none());
    let addr = preferred.ipv6.expect("a value");
    assert_eq!((addr.flowinfo, addr.scope_id), (0, 0));
    assert_eq!(preferred.stateless_reset_token, [4; 16]);
}
