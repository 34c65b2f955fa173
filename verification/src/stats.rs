//! Statistics of a connection.

use vstd::prelude::*;

use crate::settings::{finite_duration, timer_span};
use crate::types::Duration;

verus! {

/// Returns the time span of `value` nanoseconds; the largest number stands for none.
pub fn optional_nanos(value: u64) -> (r: Option<Duration>)
    ensures
        r == timer_span(value),
{
    finite_duration(value)
}

/// Returns `value`; the largest number stands for none.
pub fn optional_bytes(value: u64) -> (r: Option<u64>)
    ensures
        r == (if value == u64::MAX {
            None
        } else {
            Some(value)
        }),
{
    if value == u64::MAX {
        None
    } else {
        Some(value)
    }
}

/// The statistics as the engine keeps them. Times are in nanoseconds.
#[derive(Debug, Clone, Copy)]
pub struct ConnInfo {
    /// The latest round-trip time.
    pub latest_rtt: u64,
    /// The smallest round-trip time; the largest number before there is one.
    pub min_rtt: u64,
    /// The smoothed round-trip time.
    pub smoothed_rtt: u64,
    /// The mean deviation of the round-trip time.
    pub rttvar: u64,
    /// The congestion window.
    pub cwnd: u64,
    /// The slow start threshold; the largest number before there is one.
    pub ssthresh: u64,
    /// Bytes sent and not acknowledged.
    pub bytes_in_flight: u64,
    /// Packets sent.
    pub pkt_sent: u64,
    /// Bytes sent.
    pub bytes_sent: u64,
    /// Packets received.
    pub pkt_recv: u64,
    /// Bytes received.
    pub bytes_recv: u64,
    /// Packets lost.
    pub pkt_lost: u64,
    /// Bytes lost.
    pub bytes_lost: u64,
    /// PING frames received.
    pub ping_recv: u64,
    /// Packets discarded.
    pub pkt_discarded: u64,
}

/// The statistics of a connection at one moment.
#[derive(Debug, Clone, Copy, PartialEq, Eq, Structural)]
pub struct ConnStats {
    /// The latest round-trip time (RFC 9002 Section 3); zero before there is one.
    pub latest_rtt: Duration,
    /// The smallest round-trip time, if there is one yet.
    pub min_rtt: Option<Duration>,
    /// The smoothed round-trip time.
    pub smoothed_rtt: Duration,
    /// The mean deviation of the round-trip time.
    pub rttvar: Duration,
    /// The congestion window in bytes.
    pub cwnd: u64,
    /// The slow start threshold in bytes; none before the first loss.
    pub ssthresh: Option<u64>,
    /// Bytes sent and not acknowledged (RFC 9002 Section 2).
    pub bytes_in_flight: u64,
    /// Packets sent.
    pub packets_sent: u64,
    /// Bytes sent.
    pub bytes_sent: u64,
    /// Packets received.
    pub packets_received: u64,
    /// Bytes received.
    pub bytes_received: u64,
    /// Packets lost, including some that only seemed lost.
    pub packets_lost: u64,
    /// Bytes lost.
    pub bytes_lost: u64,
    /// PING frames received.
    pub pings_received: u64,
    /// Packets discarded.
    pub packets_discarded: u64,
}

impl ConnStats {
    /// Whether these are the statistics that the engine keeps as `raw`.
    pub open spec fn is_raw(self, raw: ConnInfo) -> bool {
        self == (ConnStats {
            latest_rtt: Duration { nanos: raw.latest_rtt as u128 },
            min_rtt: timer_span(raw.min_rtt),
            smoothed_rtt: Duration { nanos: raw.smoothed_rtt as u128 },
            rttvar: Duration { nanos: raw.rttvar as u128 },
            cwnd: raw.cwnd,
            ssthresh: if raw.ssthresh == u64::MAX {
                None
            } else {
                Some(raw.ssthresh)
            },
            bytes_in_flight: raw.bytes_in_flight,
            packets_sent: raw.pkt_sent,
            bytes_sent: raw.bytes_sent,
            packets_received: raw.pkt_recv,
            bytes_received: raw.bytes_recv,
            packets_lost: raw.pkt_lost,
            bytes_lost: raw.bytes_lost,
            pings_received: raw.ping_recv,
            packets_discarded: raw.pkt_discarded,
        })
    }

    /// Takes the statistics from what the engine keeps.
    pub fn from_raw(raw: &ConnInfo) -> (r: ConnStats)
        ensures
            r.is_raw(*raw),
    {
        ConnStats {
            latest_rtt: Duration::from_nanos(raw.latest_rtt),
            min_rtt: optional_nanos(raw.min_rtt),
            smoothed_rtt: Duration::from_nanos(raw.smoothed_rtt),
            rttvar: Duration::from_nanos(raw.rttvar),
            cwnd: raw.cwnd,
            ssthresh: optional_bytes(raw.ssthresh),
            bytes_in_flight: raw.bytes_in_flight,
            packets_sent: raw.pkt_sent,
            bytes_sent: raw.bytes_sent,
            packets_received: raw.pkt_recv,
            bytes_received: raw.bytes_recv,
            packets_lost: raw.pkt_lost,
            bytes_lost: raw.bytes_lost,
            pings_received: raw.ping_recv,
            packets_discarded: raw.pkt_discarded,
        }
    }
}

} // verus!
