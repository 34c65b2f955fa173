//! Statistics of a connection.

use ngtcp2::stats::{optional_bytes, optional_nanos, ConnInfo};
use ngtcp2::types::Duration;
use ngtcp2::ConnStats;

#[test]
fn test_optional_sentinels() {
    assert_eq!(optional_nanos(u64::MAX), None);
    assert_eq!(optional_nanos(1_000), Some(Duration::from_nanos(1_000)));
    assert_eq!(optional_bytes(u64::MAX), None);
    assert_eq!(optional_bytes(0), Some(0));
}

#[test]
fn statistics_keep_every_field() {
    let stats = ConnStats::from_raw(&ConnInfo {
        latest_rtt: 1,
        min_rtt: u64::MAX,
        smoothed_rtt: 333_000_000,
        rttvar: 4,
        cwnd: 5,
        ssthresh: u64::MAX,
        bytes_in_flight: 7,
        pkt_sent: 8,
        bytes_sent: 9,
        pkt_recv: 10,
        bytes_recv: 11,
        pkt_lost: 12,
        bytes_lost: 13,
        ping_recv: 14,
        pkt_discarded: 15,
    });
    assert_eq!(
        stats,
        ConnStats {
            latest_rtt: Duration::from_nanos(1),
            min_rtt: None,
            smoothed_rtt: Duration::from_millis(333),
            rttvar: Duration::from_nanos(4),
            cwnd: 5,
            ssthresh: None,
            bytes_in_flight: 7,
            packets_sent: 8,
            bytes_sent: 9,
            packets_received: 10,
            bytes_received: 11,
            packets_lost: 12,
            bytes_lost: 13,
            pings_received: 14,
            packets_discarded: 15,
        }
    );
}
