//! Settings of a connection.

use ngtcp2::settings::{finite_duration, low_nanos, nanos_or_max, NGTCP2_CC_ALGO_BBR};
use ngtcp2::types::Duration;
use ngtcp2::{
    AddressValidationToken, CongestionAlgorithm, QuicVersion, Settings, StatelessResetSecret,
    DEFAULT_INITIAL_RTT, DEFAULT_MAX_TX_UDP_PAYLOAD_SIZE,
};

#[test]
fn test_settings_defaults() {
    let settings = Settings::new(12345);

    assert_eq!(settings.initial_ts, 12345);
    assert_eq!(settings.congestion_algorithm, CongestionAlgorithm::Cubic);
    assert_eq!(settings.initial_rtt, Duration::from_nanos(DEFAULT_INITIAL_RTT));
    assert_eq!(settings.handshake_timeout, None);
    assert_eq!(settings.max_tx_udp_payload_size, DEFAULT_MAX_TX_UDP_PAYLOAD_SIZE);
    assert_eq!(settings.max_window, 0);
    assert_eq!(settings.max_stream_window, 0);
    assert_eq!(settings.ack_threshold, 2);
    assert!(!settings.no_tx_udp_payload_size_shaping);
    assert!(!settings.no_pmtud);
    assert_eq!(settings.keep_alive_timeout, None);
}

#[test]
fn default_values_are_exact() {
    assert_eq!(DEFAULT_INITIAL_RTT, 333_000_000);
    assert_eq!(DEFAULT_MAX_TX_UDP_PAYLOAD_SIZE, 1350);
    assert_eq!(CongestionAlgorithm::default(), CongestionAlgorithm::Cubic);
}

#[test]
fn test_settings_to_raw() {
    let settings = Settings {
        initial_ts: 999,
        congestion_algorithm: CongestionAlgorithm::Bbr2,
        initial_rtt: Duration::from_millis(50),
        handshake_timeout: Some(Duration::from_secs(3)),
        max_tx_udp_payload_size: 1200,
        max_window: 1024 * 1024,
        max_stream_window: 64 * 1024,
        ack_threshold: 10,
        no_tx_udp_payload_size_shaping: true,
        no_pmtud: true,
        qlog: true,
        preferred_versions: vec![QuicVersion::V2],
        available_versions: vec![QuicVersion::V1, QuicVersion::V2],
        keep_alive_timeout: Some(Duration::from_secs(30)),
        address_validation_token: None,
        stateless_reset_secret: None,
    };
    let raw = settings.to_raw();

    assert_eq!(raw.initial_ts, 999);
    assert_eq!(raw.cc_algo, NGTCP2_CC_ALGO_BBR);
    assert_eq!(raw.initial_rtt, Duration::from_millis(50).as_nanos() as u64);
    assert_eq!(raw.handshake_timeout, Duration::from_secs(3).as_nanos() as u64);
    assert_eq!(raw.max_tx_udp_payload_size, 1200);
    assert_eq!(raw.max_window, 1024 * 1024);
    assert_eq!(raw.max_stream_window, 64 * 1024);
    assert_eq!(raw.ack_thresh, 10);
    assert_eq!(raw.no_tx_udp_payload_size_shaping, 1);
    assert_eq!(raw.no_pmtud, 1);
    assert!(raw.qlog_write);
    assert_eq!(raw.preferred_versions, vec![0x6b33_43cf]);
    assert_eq!(raw.available_versions, vec![1, 0x6b33_43cf]);
    assert!(raw.token.is_empty());
}

#[test]
fn test_settings_to_raw_disables_qlog() {
    let settings = Settings::new(0);
    let raw = settings.to_raw();

    assert!(!raw.qlog_write);
}

#[test]
fn test_settings_to_raw_disables_timeouts() {
    let settings = Settings::new(0);
    let raw = settings.to_raw();

    assert_eq!(raw.handshake_timeout, u64::MAX);
}

#[test]
fn test_congestion_algorithm_raw_roundtrip() {
    for algo in
        [CongestionAlgorithm::Reno, CongestionAlgorithm::Cubic, CongestionAlgorithm::Bbr2]
    {
        assert_eq!(CongestionAlgorithm::from_raw(algo.as_raw()), algo);
    }
    assert_eq!(CongestionAlgorithm::from_raw(77), CongestionAlgorithm::Cubic);
}

#[test]
fn test_finite_duration_treats_max_as_disabled() {
    assert_eq!(finite_duration(u64::MAX), None);
    assert_eq!(finite_duration(1000), Some(Duration::from_nanos(1000)));
    assert_eq!(nanos_or_max(None), u64::MAX);
    assert_eq!(nanos_or_max(Some(Duration::from_secs(1))), 1_000_000_000);
}

#[test]
fn long_spans_lose_their_upper_bits() {
    assert_eq!(low_nanos(Duration { nanos: (1 << 64) + 5 }), 5);
    assert_eq!(nanos_or_max(Some(Duration { nanos: u64::MAX as u128 })), u64::MAX);
}

#[test]
fn tokens_go_to_the_engine_with_their_kind() {
    let mut settings = Settings::new(1);
    settings.address_validation_token = AddressValidationToken::from_packet(vec![0x36, 8]);
    settings.stateless_reset_secret = Some(StatelessResetSecret::from_bytes([1; 32]));
    let raw = settings.to_raw();
    assert_eq!(raw.token, vec![0x36, 8]);
    assert_eq!(raw.token_type, 2);
}

#[test]
fn clones_of_settings_are_equal() {
    let mut settings = Settings::new(3);
    settings.qlog = true;
    settings.preferred_versions = vec![QuicVersion::V2];
    settings.address_validation_token = AddressValidationToken::from_packet(vec![0xb7]);
    settings.stateless_reset_secret = Some(StatelessResetSecret::from_bytes([1; 32]));
    assert!(settings.clone() == settings);
}
