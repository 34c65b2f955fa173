//! Settings of a connection that are not transport parameters.

use vstd::prelude::*;
use vstd::slice::slice_to_vec;

use crate::reset::StatelessResetSecret;
use crate::retry::AddressValidationToken;
use crate::types::{Duration, QuicVersion};

verus! {

/// The version of the layout of the engine's settings.
pub const NGTCP2_SETTINGS_VERSION: u32 = 4;

/// The version of the layout of the engine's callbacks.
pub const NGTCP2_CALLBACKS_VERSION: u32 = 6;

/// The largest size of a UDP payload that is sent, in bytes.
///
/// The engine would send 1452. The lower value passes through tunnels without fragmentation.
pub const DEFAULT_MAX_TX_UDP_PAYLOAD_SIZE: usize = 1350;

/// The largest size of a UDP payload that the engine sends unless told otherwise, in bytes.
pub const ENGINE_MAX_TX_UDP_PAYLOAD_SIZE: usize = 1452;

/// The estimate of the round-trip time before there is one, in nanoseconds: 333 milliseconds
/// (RFC 9002 Section 6.2.2).
pub const DEFAULT_INITIAL_RTT: u64 = 333_000_000;

/// The engine's number for Reno.
pub const NGTCP2_CC_ALGO_RENO: u32 = 0;

/// The engine's number for CUBIC.
pub const NGTCP2_CC_ALGO_CUBIC: u32 = 1;

/// The engine's number for BBR.
pub const NGTCP2_CC_ALGO_BBR: u32 = 2;

/// A congestion control algorithm.
#[derive(Debug, Clone, Copy, PartialEq, Eq, Structural)]
pub enum CongestionAlgorithm {
    /// Reno.
    Reno,
    /// CUBIC (RFC 9438), the default.
    Cubic,
    /// BBR v2.
    Bbr2,
}

impl CongestionAlgorithm {
    /// The engine's number for this algorithm.
    pub open spec fn number(self) -> u32 {
        match self {
            CongestionAlgorithm::Reno => NGTCP2_CC_ALGO_RENO,
            CongestionAlgorithm::Cubic => NGTCP2_CC_ALGO_CUBIC,
            CongestionAlgorithm::Bbr2 => NGTCP2_CC_ALGO_BBR,
        }
    }

    /// The algorithm with this number; an unknown number stands for CUBIC.
    pub open spec fn numbered(value: u32) -> CongestionAlgorithm {
        if value == NGTCP2_CC_ALGO_RENO {
            CongestionAlgorithm::Reno
        } else if value == NGTCP2_CC_ALGO_BBR {
            CongestionAlgorithm::Bbr2
        } else {
            CongestionAlgorithm::Cubic
        }
    }

    /// Returns the algorithm with the engine's number `value`; an unknown one stands for CUBIC.
    pub fn from_raw(value: u32) -> (r: CongestionAlgorithm)
        ensures
            r == CongestionAlgorithm::numbered(value),
    {
        if value == NGTCP2_CC_ALGO_RENO {
            CongestionAlgorithm::Reno
        } else if value == NGTCP2_CC_ALGO_BBR {
            CongestionAlgorithm::Bbr2
        } else {
            CongestionAlgorithm::Cubic
        }
    }

    /// Returns the engine's number for this algorithm.
    pub fn as_raw(self) -> (r: u32)
        ensures
            r == self.number(),
    {
        match self {
            CongestionAlgorithm::Reno => NGTCP2_CC_ALGO_RENO,
            CongestionAlgorithm::Cubic => NGTCP2_CC_ALGO_CUBIC,
            CongestionAlgorithm::Bbr2 => NGTCP2_CC_ALGO_BBR,
        }
    }
}

impl Default for CongestionAlgorithm {
    fn default() -> (r: CongestionAlgorithm)
        ensures
            r == CongestionAlgorithm::Cubic,
    {
        CongestionAlgorithm::Cubic
    }
}

/// An algorithm is found again from its number.
pub proof fn lemma_congestion_algorithm_roundtrip(algorithm: CongestionAlgorithm)
    ensures
        CongestionAlgorithm::numbered(algorithm.number()) == algorithm,
{
}

/// Reno, CUBIC and BBR have the numbers 0, 1 and 2, and any other number stands for CUBIC.
pub proof fn lemma_congestion_algorithm_numbers(algorithm: CongestionAlgorithm, value: u32)
    ensures
        algorithm.number() == (match algorithm {
            CongestionAlgorithm::Reno => 0u32,
            CongestionAlgorithm::Cubic => 1u32,
            CongestionAlgorithm::Bbr2 => 2u32,
        }),
        CongestionAlgorithm::numbered(value) == CongestionAlgorithm::Reno <==> value == 0,
        CongestionAlgorithm::numbered(value) == CongestionAlgorithm::Bbr2 <==> value == 2,
{
}

/// The time span of `nanos` nanoseconds; the largest number switches the timer off.
pub open spec fn timer_span(nanos: u64) -> Option<Duration> {
    if nanos == u64::MAX {
        None
    } else {
        Some(Duration { nanos: nanos as u128 })
    }
}

/// The nanoseconds of a timer; the largest number switches it off.
///
/// A span beyond the range of 64 bits loses its upper bits.
pub open spec fn timer_nanos(duration: Option<Duration>) -> u64 {
    match duration {
        Some(d) => (d.nanos % 0x1_0000_0000_0000_0000) as u64,
        None => u64::MAX,
    }
}

/// A timer is counted in nanoseconds, and 2^64 - 1 of them switch it off. A span of 2^64 nanoseconds or
/// more loses its upper bits.
pub proof fn lemma_timer_is_in_nanos(span: Duration, nanos: u64)
    ensures
        span.nanos < 0x1_0000_0000_0000_0000 ==> timer_nanos(Some(span)) == span.nanos,
        timer_nanos(Some(span)) == span.nanos % 0x1_0000_0000_0000_0000,
        timer_nanos(None) == 0xffff_ffff_ffff_ffff,
        timer_span(nanos) is None <==> nanos == 0xffff_ffff_ffff_ffff,
        timer_span(nanos) matches Some(d) ==> d.nanos == nanos,
{
}

/// A timer is found again from its nanoseconds, as long as its span is below the number that
/// switches a timer off.
pub proof fn lemma_timer_roundtrip(duration: Option<Duration>)
    requires
        duration matches Some(d) ==> d.nanos < u64::MAX,
    ensures
        timer_span(timer_nanos(duration)) == duration,
{
}

/// The nanoseconds of a timer are found again from its span.
pub proof fn lemma_timer_nanos_roundtrip(nanos: u64)
    ensures
        timer_nanos(timer_span(nanos)) == nanos,
{
}

/// Returns the time span of `nanos` nanoseconds; the largest number switches the timer off.
pub fn finite_duration(nanos: u64) -> (r: Option<Duration>)
    ensures
        r == timer_span(nanos),
{
    if nanos == u64::MAX {
        None
    } else {
        Some(Duration::from_nanos(nanos))
    }
}

/// Returns the low 64 bits of the nanoseconds of a time span.
pub fn low_nanos(duration: Duration) -> (r: u64)
    ensures
        r == duration.nanos % 0x1_0000_0000_0000_0000,
{
    (duration.nanos % 0x1_0000_0000_0000_0000) as u64
}

/// Returns the nanoseconds of a timer; the largest number switches it off.
pub fn nanos_or_max(duration: Option<Duration>) -> (r: u64)
    ensures
        r == timer_nanos(duration),
{
    match duration {
        Some(d) => low_nanos(d),
        None => u64::MAX,
    }
}

/// The settings as the engine takes them.
#[derive(Debug)]
pub struct RawSettings {
    /// When the connection is made, in nanoseconds.
    pub initial_ts: u64,
    /// The number of the congestion control algorithm.
    pub cc_algo: u32,
    /// The estimate of the round-trip time, in nanoseconds.
    pub initial_rtt: u64,
    /// The time limit of the handshake, in nanoseconds; the largest number is none.
    pub handshake_timeout: u64,
    /// The largest size of a UDP payload that is sent.
    pub max_tx_udp_payload_size: usize,
    /// The largest window of the connection; zero leaves it to the engine.
    pub max_window: u64,
    /// The largest window of a stream; zero leaves it to the engine.
    pub max_stream_window: u64,
    /// How many packets may come before an acknowledgement is sent.
    pub ack_thresh: usize,
    /// Whether the size of packets is left as it is.
    pub no_tx_udp_payload_size_shaping: u8,
    /// Whether the path MTU is not discovered.
    pub no_pmtud: u8,
    /// The versions that are preferred, best first.
    pub preferred_versions: Vec<u32>,
    /// The versions that are announced.
    pub available_versions: Vec<u32>,
    /// Whether qlog output is asked for.
    pub qlog_write: bool,
    /// The address validation token, empty if there is none.
    pub token: Vec<u8>,
    /// The number of the kind of the token; zero if there is none.
    pub token_type: u32,
}

/// The settings of a connection.
#[derive(PartialEq, Eq)]
pub struct Settings {
    /// When the connection is made, in nanoseconds: the base of all timers.
    pub initial_ts: u64,
    /// The congestion control algorithm.
    pub congestion_algorithm: CongestionAlgorithm,
    /// The estimate of the round-trip time before there is one (RFC 9002 Section 6.2.2).
    pub initial_rtt: Duration,
    /// How long the handshake may take; none is no limit.
    pub handshake_timeout: Option<Duration>,
    /// The largest size of a UDP payload that is sent, in bytes.
    pub max_tx_udp_payload_size: usize,
    /// The largest window of the connection in bytes; zero leaves it to the engine.
    pub max_window: u64,
    /// The largest window of a stream in bytes; zero leaves it to the engine.
    pub max_stream_window: u64,
    /// How many packets may come before an acknowledgement is sent (RFC 9002 Section 7.3.1).
    pub ack_threshold: usize,
    /// Whether packets are not filled up to the largest size.
    pub no_tx_udp_payload_size_shaping: bool,
    /// Whether the path MTU is not discovered.
    pub no_pmtud: bool,
    /// After how much idle time a keep-alive packet is sent; none sends no such packets.
    pub keep_alive_timeout: Option<Duration>,
    /// The address validation token of an Initial packet (RFC 9000 Section 8.1).
    pub address_validation_token: Option<AddressValidationToken>,
    /// The secret that Stateless Reset tokens are derived from (RFC 9000 Section 10.3.1).
    ///
    /// Without it the tokens are random and no Stateless Reset can be sent later.
    pub stateless_reset_secret: Option<StatelessResetSecret>,
    /// The versions that are preferred, best first (RFC 9368).
    pub preferred_versions: Vec<QuicVersion>,
    /// The versions that are announced (RFC 9368).
    pub available_versions: Vec<QuicVersion>,
    /// Whether qlog output is asked for.
    pub qlog: bool,
}

/// The values of `versions` on the wire.
pub open spec fn wire_values(versions: Seq<QuicVersion>) -> Seq<u32> {
    versions.map_values(|v: QuicVersion| v.wire())
}

/// The versions keep their order: 1 stands for QUIC v1 and 0x6b3343cf for QUIC v2.
pub proof fn lemma_wire_values(versions: Seq<QuicVersion>)
    ensures
        wire_values(versions).len() == versions.len(),
        forall|i: int|
            0 <= i < versions.len() ==> #[trigger] wire_values(versions)[i] == (match versions[i] {
                QuicVersion::V1 => 1u32,
                QuicVersion::V2 => 0x6b3343cfu32,
            }),
{
}

/// Returns the values of `versions` on the wire.
fn versions_to_raw(versions: &Vec<QuicVersion>) -> (r: Vec<u32>)
    ensures
        r@ == wire_values(versions@),
{
    let mut out: Vec<u32> = Vec::new();
    let mut i: usize = 0;
    while i < versions.len()
        invariant
            i <= versions@.len(),
            out@ == wire_values(versions@).take(i as int),
        decreases versions@.len() - i,
    {
        out.push(versions[i].as_u32());
        i = i + 1;
        assert(out@ =~= wire_values(versions@).take(i as int));
    }
    assert(out@ =~= wire_values(versions@));
    out
}

impl RawSettings {
    /// Whether these are the engine's own settings, at the time `initial_ts` and with the largest
    /// payload `payload_size`.
    pub open spec fn is_default(self, initial_ts: u64, payload_size: usize) -> bool {
        &&& self.initial_ts == initial_ts
        &&& self.cc_algo == NGTCP2_CC_ALGO_CUBIC
        &&& self.initial_rtt == DEFAULT_INITIAL_RTT
        &&& self.handshake_timeout == u64::MAX
        &&& self.max_tx_udp_payload_size == payload_size
        &&& self.max_window == 0
        &&& self.max_stream_window == 0
        &&& self.ack_thresh == 2
        &&& self.no_tx_udp_payload_size_shaping == 0
        &&& self.no_pmtud == 0
        &&& self.preferred_versions@ == Seq::<u32>::empty()
        &&& self.available_versions@ == Seq::<u32>::empty()
        &&& !self.qlog_write
        &&& self.token@ == Seq::<u8>::empty()
        &&& self.token_type == 0
    }

    /// Returns the engine's own settings.
    pub fn engine_default() -> (r: RawSettings)
        ensures
            r.is_default(0, ENGINE_MAX_TX_UDP_PAYLOAD_SIZE),
    {
        RawSettings {
            initial_ts: 0,
            cc_algo: NGTCP2_CC_ALGO_CUBIC,
            initial_rtt: DEFAULT_INITIAL_RTT,
            handshake_timeout: u64::MAX,
            max_tx_udp_payload_size: ENGINE_MAX_TX_UDP_PAYLOAD_SIZE,
            max_window: 0,
            max_stream_window: 0,
            ack_thresh: 2,
            no_tx_udp_payload_size_shaping: 0,
            no_pmtud: 0,
            preferred_versions: Vec::new(),
            available_versions: Vec::new(),
            qlog_write: false,
            token: Vec::new(),
            token_type: 0,
        }
    }
}

/// Returns the engine's own settings at the time `initial_ts`, with the payload size of this
/// library.
pub fn default_raw(initial_ts: u64) -> (r: RawSettings)
    ensures
        r.is_default(initial_ts, DEFAULT_MAX_TX_UDP_PAYLOAD_SIZE),
{
    let mut raw: RawSettings = RawSettings::engine_default();
    raw.initial_ts = initial_ts;
    raw.max_tx_udp_payload_size = DEFAULT_MAX_TX_UDP_PAYLOAD_SIZE;
    raw
}

impl Settings {
    /// Whether these are the settings of a new connection at the time `initial_ts`.
    pub open spec fn is_default(self, initial_ts: u64) -> bool {
        &&& self.initial_ts == initial_ts
        &&& self.congestion_algorithm == CongestionAlgorithm::Cubic
        &&& self.initial_rtt.nanos == DEFAULT_INITIAL_RTT
        &&& self.handshake_timeout is None
        &&& self.max_tx_udp_payload_size == DEFAULT_MAX_TX_UDP_PAYLOAD_SIZE
        &&& self.max_window == 0
        &&& self.max_stream_window == 0
        &&& self.ack_threshold == 2
        &&& !self.no_tx_udp_payload_size_shaping
        &&& !self.no_pmtud
        &&& self.keep_alive_timeout is None
        &&& self.address_validation_token is None
        &&& self.stateless_reset_secret is None
        &&& self.preferred_versions@ == Seq::<QuicVersion>::empty()
        &&& self.available_versions@ == Seq::<QuicVersion>::empty()
        &&& !self.qlog
    }

    /// Whether `other` says the same.
    pub open spec fn agrees(self, other: Settings) -> bool {
        &&& self == (Settings {
            address_validation_token: self.address_validation_token,
            preferred_versions: self.preferred_versions,
            available_versions: self.available_versions,
            ..other
        })
        &&& match other.address_validation_token {
            Some(token) => self.address_validation_token matches Some(t) && t@ == token@,
            None => self.address_validation_token is None,
        }
        &&& self.preferred_versions@ == other.preferred_versions@
        &&& self.available_versions@ == other.available_versions@
    }

    /// Whether `raw` holds these settings in the form that the engine takes.
    ///
    /// Keep-alive and the secret for Stateless Reset tokens are not among the engine's settings.
    pub open spec fn is_raw(self, raw: RawSettings) -> bool {
        &&& raw.initial_ts == self.initial_ts
        &&& raw.cc_algo == self.congestion_algorithm.number()
        &&& raw.initial_rtt == self.initial_rtt.nanos % 0x1_0000_0000_0000_0000
        &&& raw.handshake_timeout == timer_nanos(self.handshake_timeout)
        &&& raw.max_tx_udp_payload_size == self.max_tx_udp_payload_size
        &&& raw.max_window == self.max_window
        &&& raw.max_stream_window == self.max_stream_window
        &&& raw.ack_thresh == self.ack_threshold
        &&& raw.no_tx_udp_payload_size_shaping == (if self.no_tx_udp_payload_size_shaping {
            1
        } else {
            0u8
        })
        &&& raw.no_pmtud == (if self.no_pmtud {
            1
        } else {
            0u8
        })
        &&& raw.preferred_versions@ == wire_values(self.preferred_versions@)
        &&& raw.available_versions@ == wire_values(self.available_versions@)
        &&& raw.qlog_write == self.qlog
        &&& match self.address_validation_token {
            Some(token) => raw.token@ == token@.0 && raw.token_type == token@.1.number(),
            None => raw.token@ == Seq::<u8>::empty() && raw.token_type == 0,
        }
    }

    /// Makes the default settings of a connection that is made at the time `initial_ts`, in
    /// nanoseconds.
    ///
    /// They are those of the engine but for the largest payload
    /// ([`DEFAULT_MAX_TX_UDP_PAYLOAD_SIZE`]).
    pub fn new(initial_ts: u64) -> (r: Settings)
        ensures
            r.is_default(initial_ts),
    {
        let raw: RawSettings = default_raw(initial_ts);
        Settings {
            initial_ts,
            congestion_algorithm: CongestionAlgorithm::from_raw(raw.cc_algo),
            initial_rtt: Duration::from_nanos(raw.initial_rtt),
            handshake_timeout: finite_duration(raw.handshake_timeout),
            max_tx_udp_payload_size: raw.max_tx_udp_payload_size,
            max_window: raw.max_window,
            max_stream_window: raw.max_stream_window,
            ack_threshold: raw.ack_thresh,
            no_tx_udp_payload_size_shaping: raw.no_tx_udp_payload_size_shaping != 0,
            no_pmtud: raw.no_pmtud != 0,
            keep_alive_timeout: None,
            address_validation_token: None,
            stateless_reset_secret: None,
            preferred_versions: Vec::new(),
            available_versions: Vec::new(),
            qlog: false,
        }
    }

    /// Returns the settings in the form that the engine takes.
    pub fn to_raw(&self) -> (r: RawSettings)
        ensures
            self.is_raw(r),
    {
        let mut raw: RawSettings = default_raw(self.initial_ts);
        raw.cc_algo = self.congestion_algorithm.as_raw();
        raw.initial_rtt = low_nanos(self.initial_rtt);
        raw.handshake_timeout = nanos_or_max(self.handshake_timeout);
        raw.max_tx_udp_payload_size = self.max_tx_udp_payload_size;
        raw.max_window = self.max_window;
        raw.max_stream_window = self.max_stream_window;
        raw.ack_thresh = self.ack_threshold;
        raw.no_tx_udp_payload_size_shaping = if self.no_tx_udp_payload_size_shaping {
            1
        } else {
            0
        };
        raw.no_pmtud = if self.no_pmtud {
            1
        } else {
            0
        };
        raw.preferred_versions = versions_to_raw(&self.preferred_versions);
        raw.available_versions = versions_to_raw(&self.available_versions);
        raw.qlog_write = self.qlog;
        match &self.address_validation_token {
            Some(token) => {
                raw.token = slice_to_vec(token.as_bytes());
                raw.token_type = token.as_raw_kind();
            },
            None => {},
        }
        raw
    }
}

impl Clone for Settings {
    fn clone(&self) -> (r: Settings)
        ensures
            r.agrees(*self),
    {
        Settings {
            initial_ts: self.initial_ts,
            congestion_algorithm: self.congestion_algorithm,
            initial_rtt: self.initial_rtt,
            handshake_timeout: self.handshake_timeout,
            max_tx_udp_payload_size: self.max_tx_udp_payload_size,
            max_window: self.max_window,
            max_stream_window: self.max_stream_window,
            ack_threshold: self.ack_threshold,
            no_tx_udp_payload_size_shaping: self.no_tx_udp_payload_size_shaping,
            no_pmtud: self.no_pmtud,
            keep_alive_timeout: self.keep_alive_timeout,
            address_validation_token: match &self.address_validation_token {
                Some(token) => Some(token.clone()),
                None => None,
            },
            stateless_reset_secret: match &self.stateless_reset_secret {
                Some(secret) => Some(secret.clone()),
                None => None,
            },
            preferred_versions: slice_to_vec(self.preferred_versions.as_slice()),
            available_versions: slice_to_vec(self.available_versions.as_slice()),
            qlog: self.qlog,
        }
    }
}

/// The default settings are the engine's own ones, but for the largest payload.
pub proof fn lemma_default_settings_are_the_engines(settings: Settings, raw: RawSettings, ts: u64)
    requires
        settings.is_default(ts),
        settings.is_raw(raw),
    ensures
        raw.is_default(ts, DEFAULT_MAX_TX_UDP_PAYLOAD_SIZE),
{
    assert(raw.preferred_versions@ =~= Seq::<u32>::empty());
    assert(raw.available_versions@ =~= Seq::<u32>::empty());
}

} // verus!
