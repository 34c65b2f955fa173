//! QUIC transport parameters (RFC 9000 Section 18).

use vstd::prelude::*;

use crate::addr::{cid_from_raw, cid_to_raw, sockaddr_to_raw, RawCid, RawSockaddr};
use crate::reset::StatelessResetToken;
use crate::types::{ConnectionId, Duration, SocketAddr};

verus! {

/// The largest UDP payload that is received unless told otherwise (RFC 9000 Section 18.2).
pub const NGTCP2_DEFAULT_MAX_RECV_UDP_PAYLOAD_SIZE: u64 = 65527;

/// The exponent of the ACK delay unless told otherwise (RFC 9000 Section 18.2).
pub const NGTCP2_DEFAULT_ACK_DELAY_EXPONENT: u64 = 3;

/// How many connection IDs are kept unless told otherwise (RFC 9000 Section 18.2).
pub const NGTCP2_DEFAULT_ACTIVE_CONNECTION_ID_LIMIT: u64 = 2;

/// The longest delay of an ACK unless told otherwise, in nanoseconds: 25 milliseconds
/// (RFC 9000 Section 18.2).
pub const NGTCP2_DEFAULT_MAX_ACK_DELAY: u64 = 25_000_000;

/// The nanoseconds of a time span; one beyond the range of 64 bits becomes the largest number but
/// one, since the largest has a meaning of its own.
pub open spec fn nanos_within(duration: Duration) -> u64 {
    if duration.nanos <= u64::MAX {
        duration.nanos as u64
    } else {
        (u64::MAX - 1) as u64
    }
}

/// Returns the nanoseconds of a time span; one beyond the range of 64 bits becomes the largest
/// number but one (about 584 years).
pub fn duration_nanos(duration: Duration) -> (r: u64)
    ensures
        r == nanos_within(duration),
{
    if duration.nanos <= u64::MAX as u128 {
        duration.nanos as u64
    } else {
        u64::MAX - 1
    }
}

/// A preferred address as the engine holds it.
pub struct RawPreferredAddress {
    /// The connection ID for that address.
    pub cid: RawCid,
    /// The IPv4 address, if there is one.
    pub ipv4: Option<RawSockaddr>,
    /// The IPv6 address, if there is one.
    pub ipv6: Option<RawSockaddr>,
    /// The Stateless Reset token of the connection ID.
    pub stateless_reset_token: [u8; 16],
}

/// The transport parameters of one side as the engine holds them. Times are in nanoseconds, and
/// flags are set if they are not zero.
pub struct RawTransportParams {
    /// How much may be sent on the connection.
    pub initial_max_data: u64,
    /// How much may be sent on a bidirectional stream that the peer opens.
    pub initial_max_stream_data_bidi_local: u64,
    /// How much may be sent on a bidirectional stream that this side opens.
    pub initial_max_stream_data_bidi_remote: u64,
    /// How much may be sent on a unidirectional stream.
    pub initial_max_stream_data_uni: u64,
    /// How many bidirectional streams may be opened.
    pub initial_max_streams_bidi: u64,
    /// How many unidirectional streams may be opened.
    pub initial_max_streams_uni: u64,
    /// The idle timeout.
    pub max_idle_timeout: u64,
    /// The largest UDP payload that is received.
    pub max_udp_payload_size: u64,
    /// How many connection IDs are kept.
    pub active_connection_id_limit: u64,
    /// The exponent of the ACK delay.
    pub ack_delay_exponent: u64,
    /// The longest delay of an ACK.
    pub max_ack_delay: u64,
    /// The largest datagram frame that is received.
    pub max_datagram_frame_size: u64,
    /// Whether migration is not wanted.
    pub disable_active_migration: u8,
    /// Whether the fixed bit may be greased.
    pub grease_quic_bit: u8,
    /// Whether RESET_STREAM_AT is accepted.
    pub reset_stream_at: u8,
    /// Whether there is a Source Connection ID of a Retry packet.
    pub retry_scid_present: u8,
    /// The Source Connection ID of a Retry packet.
    pub retry_scid: RawCid,
    /// Whether there is a Destination Connection ID of the client's first packet.
    pub original_dcid_present: u8,
    /// The Destination Connection ID of the client's first packet.
    pub original_dcid: RawCid,
    /// Whether there is a Stateless Reset token.
    pub stateless_reset_token_present: u8,
    /// The Stateless Reset token of the first connection ID of a server.
    pub stateless_reset_token: [u8; 16],
    /// The address that the server would rather be reached at, if there is one.
    pub preferred_addr: Option<RawPreferredAddress>,
}

/// The transport parameters that the peer has announced (RFC 9000 Section 18).
///
/// Local and remote are meant from the side that sends a parameter (RFC 9000 Section 18.2).
#[derive(Debug, Clone, PartialEq, Eq)]
pub struct RemoteTransportParams {
    /// How much may be sent on the connection at first.
    pub initial_max_data: u64,
    /// How much may be sent at first on a bidirectional stream that the peer opens.
    pub initial_max_stream_data_bidi_local: u64,
    /// How much may be sent at first on a bidirectional stream that this side opens.
    pub initial_max_stream_data_bidi_remote: u64,
    /// How much may be sent at first on a unidirectional stream.
    pub initial_max_stream_data_uni: u64,
    /// How many bidirectional streams may be opened at first.
    pub initial_max_streams_bidi: u64,
    /// How many unidirectional streams may be opened at first.
    pub initial_max_streams_uni: u64,
    /// The idle timeout of the peer; zero is none (RFC 9000 Section 10.1).
    pub max_idle_timeout: Duration,
    /// The largest UDP payload that the peer receives (RFC 9000 Section 14).
    pub max_udp_payload_size: u64,
    /// How many connection IDs the peer keeps (RFC 9000 Section 5.1.1).
    pub active_connection_id_limit: u64,
    /// The exponent of the ACK delay.
    pub ack_delay_exponent: u64,
    /// The longest delay of an ACK.
    pub max_ack_delay: Duration,
    /// The largest datagram frame that the peer receives; zero if it takes none (RFC 9221).
    pub max_datagram_frame_size: u64,
    /// Whether the peer does not want this side to migrate.
    pub disable_active_migration: bool,
    /// Whether the fixed bit may be greased (RFC 9287).
    pub grease_quic_bit: bool,
    /// Whether the peer accepts RESET_STREAM_AT.
    pub reset_stream_at: bool,
    /// The Source Connection ID of the Retry packet that the server sent, if it sent one.
    pub retry_scid: Option<ConnectionId>,
}

impl RemoteTransportParams {
    /// Whether these are the parameters that the engine holds as `raw`.
    pub open spec fn is_raw(self, raw: RawTransportParams) -> bool {
        &&& self.initial_max_data == raw.initial_max_data
        &&& self.initial_max_stream_data_bidi_local == raw.initial_max_stream_data_bidi_local
        &&& self.initial_max_stream_data_bidi_remote == raw.initial_max_stream_data_bidi_remote
        &&& self.initial_max_stream_data_uni == raw.initial_max_stream_data_uni
        &&& self.initial_max_streams_bidi == raw.initial_max_streams_bidi
        &&& self.initial_max_streams_uni == raw.initial_max_streams_uni
        &&& self.max_idle_timeout.nanos == raw.max_idle_timeout
        &&& self.max_udp_payload_size == raw.max_udp_payload_size
        &&& self.active_connection_id_limit == raw.active_connection_id_limit
        &&& self.ack_delay_exponent == raw.ack_delay_exponent
        &&& self.max_ack_delay.nanos == raw.max_ack_delay
        &&& self.max_datagram_frame_size == raw.max_datagram_frame_size
        &&& self.disable_active_migration == (raw.disable_active_migration != 0)
        &&& self.grease_quic_bit == (raw.grease_quic_bit != 0)
        &&& self.reset_stream_at == (raw.reset_stream_at != 0)
        &&& if raw.retry_scid_present != 0 {
            self.retry_scid matches Some(cid) && cid@ == raw.retry_scid.bytes()
        } else {
            self.retry_scid is None
        }
    }

    /// Takes the parameters from what the engine holds.
    pub fn from_raw(raw: &RawTransportParams) -> (r: RemoteTransportParams)
        requires
            raw.retry_scid_present != 0 ==> raw.retry_scid.datalen <= 20,
        ensures
            r.is_raw(*raw),
    {
        RemoteTransportParams {
            initial_max_data: raw.initial_max_data,
            initial_max_stream_data_bidi_local: raw.initial_max_stream_data_bidi_local,
            initial_max_stream_data_bidi_remote: raw.initial_max_stream_data_bidi_remote,
            initial_max_stream_data_uni: raw.initial_max_stream_data_uni,
            initial_max_streams_bidi: raw.initial_max_streams_bidi,
            initial_max_streams_uni: raw.initial_max_streams_uni,
            max_idle_timeout: Duration::from_nanos(raw.max_idle_timeout),
            max_udp_payload_size: raw.max_udp_payload_size,
            active_connection_id_limit: raw.active_connection_id_limit,
            ack_delay_exponent: raw.ack_delay_exponent,
            max_ack_delay: Duration::from_nanos(raw.max_ack_delay),
            max_datagram_frame_size: raw.max_datagram_frame_size,
            disable_active_migration: raw.disable_active_migration != 0,
            grease_quic_bit: raw.grease_quic_bit != 0,
            reset_stream_at: raw.reset_stream_at != 0,
            retry_scid: if raw.retry_scid_present != 0 {
                cid_from_raw(&raw.retry_scid)
            } else {
                None
            },
        }
    }
}

/// The address that a server would rather be reached at (RFC 9000 Section 18.2).
pub struct PreferredAddress {
    /// The connection ID for that address.
    pub cid: ConnectionId,
    /// The IPv4 address, if there is one.
    pub ipv4: Option<RawSockaddr>,
    /// The IPv6 address, if there is one.
    pub ipv6: Option<RawSockaddr>,
    /// The Stateless Reset token of the connection ID.
    pub stateless_reset_token: StatelessResetToken,
}

/// What a [`PreferredAddress`] says.
#[verifier::ext_equal]
pub struct PreferredAddressView {
    /// The connection ID for that address.
    pub cid: Seq<u8>,
    /// The IPv4 address, if there is one.
    pub ipv4: Option<RawSockaddr>,
    /// The IPv6 address, if there is one.
    pub ipv6: Option<RawSockaddr>,
    /// The Stateless Reset token of the connection ID.
    pub stateless_reset_token: Seq<u8>,
}

impl View for PreferredAddress {
    type V = PreferredAddressView;

    open spec fn view(&self) -> PreferredAddressView {
        PreferredAddressView {
            cid: self.cid@,
            ipv4: self.ipv4,
            ipv6: self.ipv6,
            stateless_reset_token: self.stateless_reset_token@,
        }
    }
}

/// The transport parameters of this side (RFC 9000 Section 18).
///
/// The defaults are
///
/// | parameter | value |
/// | --- | --- |
/// | `initial_max_stream_data_bidi_local`, `bidi_remote`, `uni` | 1 MiB |
/// | `initial_max_data` | 10 MiB |
/// | `initial_max_streams_bidi`, `uni` | 100 |
/// | `max_idle_timeout` | 30 seconds |
/// | `active_connection_id_limit` | 8 |
///
/// and those of the engine for the rest. Times are in nanoseconds.
pub struct TransportParams {
    /// How much the peer may send on the connection.
    pub initial_max_data: u64,
    /// How much the peer may send on a bidirectional stream that this side opens.
    pub initial_max_stream_data_bidi_local: u64,
    /// How much the peer may send on a bidirectional stream that it opens.
    pub initial_max_stream_data_bidi_remote: u64,
    /// How much the peer may send on a unidirectional stream.
    pub initial_max_stream_data_uni: u64,
    /// How many bidirectional streams the peer may open.
    pub initial_max_streams_bidi: u64,
    /// How many unidirectional streams the peer may open.
    pub initial_max_streams_uni: u64,
    /// The idle timeout.
    pub max_idle_timeout: u64,
    /// The largest UDP payload that is received.
    pub max_udp_payload_size: u64,
    /// How many connection IDs are kept.
    pub active_connection_id_limit: u64,
    /// The exponent of the ACK delay.
    pub ack_delay_exponent: u64,
    /// The longest delay of an ACK.
    pub max_ack_delay: u64,
    /// The largest datagram frame that is received.
    pub max_datagram_frame_size: u64,
    /// Whether the peer is not to migrate.
    pub disable_active_migration: bool,
    /// Whether the peer may grease the fixed bit.
    pub grease_quic_bit: bool,
    /// Whether RESET_STREAM_AT is accepted.
    pub reset_stream_at: bool,
    /// The Stateless Reset token of the first connection ID of a server.
    pub stateless_reset_token: Option<StatelessResetToken>,
    /// The Destination Connection ID of the client's first packet.
    pub original_dcid: Option<ConnectionId>,
    /// The Source Connection ID of the Retry packet that was sent.
    pub retry_scid: Option<ConnectionId>,
    /// The address that the server would rather be reached at.
    pub preferred_addr: Option<PreferredAddress>,
}

/// What [`TransportParams`] say.
#[verifier::ext_equal]
pub struct TransportParamsView {
    /// How much the peer may send on the connection.
    pub initial_max_data: u64,
    /// How much the peer may send on a bidirectional stream that this side opens.
    pub initial_max_stream_data_bidi_local: u64,
    /// How much the peer may send on a bidirectional stream that it opens.
    pub initial_max_stream_data_bidi_remote: u64,
    /// How much the peer may send on a unidirectional stream.
    pub initial_max_stream_data_uni: u64,
    /// How many bidirectional streams the peer may open.
    pub initial_max_streams_bidi: u64,
    /// How many unidirectional streams the peer may open.
    pub initial_max_streams_uni: u64,
    /// The idle timeout.
    pub max_idle_timeout: u64,
    /// The largest UDP payload that is received.
    pub max_udp_payload_size: u64,
    /// How many connection IDs are kept.
    pub active_connection_id_limit: u64,
    /// The exponent of the ACK delay.
    pub ack_delay_exponent: u64,
    /// The longest delay of an ACK.
    pub max_ack_delay: u64,
    /// The largest datagram frame that is received.
    pub max_datagram_frame_size: u64,
    /// Whether the peer is not to migrate.
    pub disable_active_migration: bool,
    /// Whether the peer may grease the fixed bit.
    pub grease_quic_bit: bool,
    /// Whether RESET_STREAM_AT is accepted.
    pub reset_stream_at: bool,
    /// The Stateless Reset token of the first connection ID of a server.
    pub stateless_reset_token: Option<Seq<u8>>,
    /// The Destination Connection ID of the client's first packet.
    pub original_dcid: Option<Seq<u8>>,
    /// The Source Connection ID of the Retry packet that was sent.
    pub retry_scid: Option<Seq<u8>>,
    /// The address that the server would rather be reached at.
    pub preferred_addr: Option<PreferredAddressView>,
}

/// The bytes of a connection ID, if there is one.
pub open spec fn cid_bytes(cid: Option<ConnectionId>) -> Option<Seq<u8>> {
    match cid {
        Some(cid) => Some(cid@),
        None => None,
    }
}

impl View for TransportParams {
    type V = TransportParamsView;

    open spec fn view(&self) -> TransportParamsView {
        TransportParamsView {
            initial_max_data: self.initial_max_data,
            initial_max_stream_data_bidi_local: self.initial_max_stream_data_bidi_local,
            initial_max_stream_data_bidi_remote: self.initial_max_stream_data_bidi_remote,
            initial_max_stream_data_uni: self.initial_max_stream_data_uni,
            initial_max_streams_bidi: self.initial_max_streams_bidi,
            initial_max_streams_uni: self.initial_max_streams_uni,
            max_idle_timeout: self.max_idle_timeout,
            max_udp_payload_size: self.max_udp_payload_size,
            active_connection_id_limit: self.active_connection_id_limit,
            ack_delay_exponent: self.ack_delay_exponent,
            max_ack_delay: self.max_ack_delay,
            max_datagram_frame_size: self.max_datagram_frame_size,
            disable_active_migration: self.disable_active_migration,
            grease_quic_bit: self.grease_quic_bit,
            reset_stream_at: self.reset_stream_at,
            stateless_reset_token: match self.stateless_reset_token {
                Some(token) => Some(token@),
                None => None,
            },
            original_dcid: cid_bytes(self.original_dcid),
            retry_scid: cid_bytes(self.retry_scid),
            preferred_addr: match self.preferred_addr {
                Some(preferred) => Some(preferred@),
                None => None,
            },
        }
    }
}

/// The engine's own transport parameters.
pub open spec fn engine_params() -> TransportParamsView {
    TransportParamsView {
        initial_max_data: 0,
        initial_max_stream_data_bidi_local: 0,
        initial_max_stream_data_bidi_remote: 0,
        initial_max_stream_data_uni: 0,
        initial_max_streams_bidi: 0,
        initial_max_streams_uni: 0,
        max_idle_timeout: 0,
        max_udp_payload_size: NGTCP2_DEFAULT_MAX_RECV_UDP_PAYLOAD_SIZE,
        active_connection_id_limit: NGTCP2_DEFAULT_ACTIVE_CONNECTION_ID_LIMIT,
        ack_delay_exponent: NGTCP2_DEFAULT_ACK_DELAY_EXPONENT,
        max_ack_delay: NGTCP2_DEFAULT_MAX_ACK_DELAY,
        max_datagram_frame_size: 0,
        disable_active_migration: false,
        grease_quic_bit: false,
        reset_stream_at: false,
        stateless_reset_token: None,
        original_dcid: None,
        retry_scid: None,
        preferred_addr: None,
    }
}

/// The transport parameters of this library.
pub open spec fn default_params() -> TransportParamsView {
    TransportParamsView {
        initial_max_data: 0xa0_0000,
        initial_max_stream_data_bidi_local: 0x10_0000,
        initial_max_stream_data_bidi_remote: 0x10_0000,
        initial_max_stream_data_uni: 0x10_0000,
        initial_max_streams_bidi: 100,
        initial_max_streams_uni: 100,
        max_idle_timeout: 30_000_000_000,
        active_connection_id_limit: 8,
        ..engine_params()
    }
}

impl TransportParams {
    /// Returns the engine's own transport parameters.
    pub fn engine_default() -> (r: TransportParams)
        ensures
            r@ == engine_params(),
    {
        TransportParams {
            initial_max_data: 0,
            initial_max_stream_data_bidi_local: 0,
            initial_max_stream_data_bidi_remote: 0,
            initial_max_stream_data_uni: 0,
            initial_max_streams_bidi: 0,
            initial_max_streams_uni: 0,
            max_idle_timeout: 0,
            max_udp_payload_size: NGTCP2_DEFAULT_MAX_RECV_UDP_PAYLOAD_SIZE,
            active_connection_id_limit: NGTCP2_DEFAULT_ACTIVE_CONNECTION_ID_LIMIT,
            ack_delay_exponent: NGTCP2_DEFAULT_ACK_DELAY_EXPONENT,
            max_ack_delay: NGTCP2_DEFAULT_MAX_ACK_DELAY,
            max_datagram_frame_size: 0,
            disable_active_migration: false,
            grease_quic_bit: false,
            reset_stream_at: false,
            stateless_reset_token: None,
            original_dcid: None,
            retry_scid: None,
            preferred_addr: None,
        }
    }

    /// Makes the default transport parameters.
    pub fn new() -> (r: TransportParams)
        ensures
            r@ == default_params(),
    {
        let mut params: TransportParams = TransportParams::engine_default();
        params.initial_max_stream_data_bidi_local = 1024 * 1024;
        params.initial_max_stream_data_bidi_remote = 1024 * 1024;
        params.initial_max_stream_data_uni = 1024 * 1024;
        params.initial_max_data = 10 * 1024 * 1024;
        params.initial_max_streams_bidi = 100;
        params.initial_max_streams_uni = 100;
        params.max_idle_timeout = duration_nanos(Duration::from_secs(30));
        params.active_connection_id_limit = 8;
        params
    }

    /// Sets the idle timeout (RFC 9000 Section 10.1); zero is none.
    pub fn with_max_idle_timeout(self, timeout: Duration) -> (r: TransportParams)
        ensures
            r@ == (TransportParamsView { max_idle_timeout: nanos_within(timeout), ..self@ }),
    {
        TransportParams { max_idle_timeout: duration_nanos(timeout), ..self }
    }

    /// Sets how much the peer may send on the connection at first.
    pub fn with_initial_max_data(self, max_data: u64) -> (r: TransportParams)
        ensures
            r@ == (TransportParamsView { initial_max_data: max_data, ..self@ }),
    {
        TransportParams { initial_max_data: max_data, ..self }
    }

    /// Sets the parameter `initial_max_stream_data_bidi_local` (RFC 9000 Section 18.2).
    pub fn with_initial_max_stream_data_bidi_local(self, max_data: u64) -> (r: TransportParams)
        ensures
            r@ == (TransportParamsView { initial_max_stream_data_bidi_local: max_data, ..self@ }),
    {
        TransportParams { initial_max_stream_data_bidi_local: max_data, ..self }
    }

    /// Sets the parameter `initial_max_stream_data_bidi_remote` (RFC 9000 Section 18.2).
    pub fn with_initial_max_stream_data_bidi_remote(self, max_data: u64) -> (r: TransportParams)
        ensures
            r@ == (TransportParamsView { initial_max_stream_data_bidi_remote: max_data, ..self@ }),
    {
        TransportParams { initial_max_stream_data_bidi_remote: max_data, ..self }
    }

    /// Sets how much the peer may send at first on a unidirectional stream.
    pub fn with_initial_max_stream_data_uni(self, max_data: u64) -> (r: TransportParams)
        ensures
            r@ == (TransportParamsView { initial_max_stream_data_uni: max_data, ..self@ }),
    {
        TransportParams { initial_max_stream_data_uni: max_data, ..self }
    }

    /// Sets how many bidirectional streams the peer may open at first.
    pub fn with_max_streams_bidi(self, max_streams: u64) -> (r: TransportParams)
        ensures
            r@ == (TransportParamsView { initial_max_streams_bidi: max_streams, ..self@ }),
    {
        TransportParams { initial_max_streams_bidi: max_streams, ..self }
    }

    /// Sets how many unidirectional streams the peer may open at first.
    pub fn with_max_streams_uni(self, max_streams: u64) -> (r: TransportParams)
        ensures
            r@ == (TransportParamsView { initial_max_streams_uni: max_streams, ..self@ }),
    {
        TransportParams { initial_max_streams_uni: max_streams, ..self }
    }

    /// Sets how many connection IDs are kept; fewer than two cannot be set
    /// (RFC 9000 Section 5.1.1).
    pub fn with_active_connection_id_limit(self, limit: u64) -> (r: TransportParams)
        requires
            limit >= 2,
        ensures
            r@ == (TransportParamsView { active_connection_id_limit: limit, ..self@ }),
    {
        TransportParams { active_connection_id_limit: limit, ..self }
    }

    /// Sets the longest delay of an ACK (RFC 9000 Section 18.2).
    pub fn with_max_ack_delay(self, delay: Duration) -> (r: TransportParams)
        ensures
            r@ == (TransportParamsView { max_ack_delay: nanos_within(delay), ..self@ }),
    {
        TransportParams { max_ack_delay: duration_nanos(delay), ..self }
    }

    /// Sets the exponent of the ACK delay (RFC 9000 Section 18.2).
    pub fn with_ack_delay_exponent(self, exponent: u64) -> (r: TransportParams)
        ensures
            r@ == (TransportParamsView { ack_delay_exponent: exponent, ..self@ }),
    {
        TransportParams { ack_delay_exponent: exponent, ..self }
    }

    /// Sets the largest UDP payload that is received (RFC 9000 Section 14).
    pub fn with_max_udp_payload_size(self, size: u64) -> (r: TransportParams)
        ensures
            r@ == (TransportParamsView { max_udp_payload_size: size, ..self@ }),
    {
        TransportParams { max_udp_payload_size: size, ..self }
    }

    /// Sets whether the peer is not to migrate (RFC 9000 Section 18.2).
    pub fn with_disable_active_migration(self, disable: bool) -> (r: TransportParams)
        ensures
            r@ == (TransportParamsView { disable_active_migration: disable, ..self@ }),
    {
        TransportParams { disable_active_migration: disable, ..self }
    }

    /// Sets whether the peer may grease the fixed bit (RFC 9287).
    pub fn with_grease_quic_bit(self, grease: bool) -> (r: TransportParams)
        ensures
            r@ == (TransportParamsView { grease_quic_bit: grease, ..self@ }),
    {
        TransportParams { grease_quic_bit: grease, ..self }
    }

    /// Sets the largest datagram frame that is received (RFC 9221); zero takes none.
    pub fn with_datagram(self, max_size: u64) -> (r: TransportParams)
        ensures
            r@ == (TransportParamsView { max_datagram_frame_size: max_size, ..self@ }),
    {
        TransportParams { max_datagram_frame_size: max_size, ..self }
    }

    /// Sets the Stateless Reset token of the first connection ID of a server
    /// (RFC 9000 Section 18.2).
    pub fn with_stateless_reset_token(self, token: &StatelessResetToken) -> (r: TransportParams)
        ensures
            r@ == (TransportParamsView { stateless_reset_token: Some(token@), ..self@ }),
    {
        TransportParams { stateless_reset_token: Some(*token), ..self }
    }

    /// Sets the Destination Connection ID of the client's first packet, which a server announces
    /// (RFC 9000 Section 7.3).
    pub fn with_original_dcid(self, dcid: &ConnectionId) -> (r: TransportParams)
        ensures
            r@ == (TransportParamsView { original_dcid: Some(dcid@), ..self@ }),
    {
        TransportParams { original_dcid: Some(dcid.clone()), ..self }
    }

    /// Returns whether there is a Destination Connection ID of the client's first packet.
    pub fn has_original_dcid(&self) -> (r: bool)
        ensures
            r == (self@.original_dcid is Some),
    {
        self.original_dcid.is_some()
    }

    /// Sets whether RESET_STREAM_AT is accepted.
    pub fn with_reset_stream_at(self, accept: bool) -> (r: TransportParams)
        ensures
            r@ == (TransportParamsView { reset_stream_at: accept, ..self@ }),
    {
        TransportParams { reset_stream_at: accept, ..self }
    }

    /// Sets the Source Connection ID of the Retry packet that was sent, which a server announces
    /// (RFC 9000 Section 7.3).
    pub fn with_retry_scid(self, scid: &ConnectionId) -> (r: TransportParams)
        ensures
            r@ == (TransportParamsView { retry_scid: Some(scid@), ..self@ }),
    {
        TransportParams { retry_scid: Some(scid.clone()), ..self }
    }

    /// Whether `now` is the preferred address after `addr` was added to `former`.
    ///
    /// There may be one address of each family: one of the other family stays as it is.
    pub open spec fn prefers(
        now: PreferredAddressView,
        former: Option<PreferredAddressView>,
        cid: Seq<u8>,
        addr: SocketAddr,
        token: Seq<u8>,
    ) -> bool {
        let (ipv4, ipv6) = match former {
            Some(p) => (p.ipv4, p.ipv6),
            None => (None, None),
        };
        &&& now.cid == cid
        &&& now.stateless_reset_token == token
        &&& if addr is V4 {
            &&& now.ipv4 matches Some(raw) && raw.holds(addr, false)
            &&& now.ipv6 == ipv6
        } else {
            &&& now.ipv4 == ipv4
            &&& now.ipv6 matches Some(raw) && raw.holds(addr, false)
        }
    }

    /// Sets the address that the server would rather be reached at (RFC 9000 Section 18.2), with
    /// the connection ID that goes with it and the Stateless Reset token of that one.
    ///
    /// Flow information and scope of an IPv6 address are not announced.
    pub fn with_preferred_address(
        self,
        cid: &ConnectionId,
        addr: SocketAddr,
        reset_token: &StatelessResetToken,
    ) -> (r: TransportParams)
        ensures
            r@ == (TransportParamsView { preferred_addr: r@.preferred_addr, ..self@ }),
            r@.preferred_addr matches Some(now) && TransportParams::prefers(
                now,
                self@.preferred_addr,
                cid@,
                addr,
                reset_token@,
            ),
    {
        let former: Option<PreferredAddress> = self.preferred_addr;
        let (mut ipv4, mut ipv6): (Option<RawSockaddr>, Option<RawSockaddr>) = match former {
            Some(p) => (p.ipv4, p.ipv6),
            None => (None, None),
        };
        match addr {
            SocketAddr::V4 { ip4, port } => {
                ipv4 = Some(sockaddr_to_raw(&addr));
            },
            SocketAddr::V6 { ip6, port, flowinfo, scope_id } => {
                let plain: SocketAddr = SocketAddr::V6 { ip6, port, flowinfo: 0, scope_id: 0 };
                ipv6 = Some(sockaddr_to_raw(&plain));
            },
        }
        let preferred: PreferredAddress = PreferredAddress {
            cid: cid.clone(),
            ipv4,
            ipv6,
            stateless_reset_token: *reset_token,
        };
        TransportParams { preferred_addr: Some(preferred), ..self }
    }

    /// Whether the engine is to take these parameters as `raw`.
    pub open spec fn is_raw(self, raw: RawTransportParams) -> bool {
        &&& raw.initial_max_data == self.initial_max_data
        &&& raw.initial_max_stream_data_bidi_local == self.initial_max_stream_data_bidi_local
        &&& raw.initial_max_stream_data_bidi_remote == self.initial_max_stream_data_bidi_remote
        &&& raw.initial_max_stream_data_uni == self.initial_max_stream_data_uni
        &&& raw.initial_max_streams_bidi == self.initial_max_streams_bidi
        &&& raw.initial_max_streams_uni == self.initial_max_streams_uni
        &&& raw.max_idle_timeout == self.max_idle_timeout
        &&& raw.max_udp_payload_size == self.max_udp_payload_size
        &&& raw.active_connection_id_limit == self.active_connection_id_limit
        &&& raw.ack_delay_exponent == self.ack_delay_exponent
        &&& raw.max_ack_delay == self.max_ack_delay
        &&& raw.max_datagram_frame_size == self.max_datagram_frame_size
        &&& raw.disable_active_migration == flag_of(self.disable_active_migration)
        &&& raw.grease_quic_bit == flag_of(self.grease_quic_bit)
        &&& raw.reset_stream_at == flag_of(self.reset_stream_at)
        &&& raw.retry_scid_present == flag_of(self.retry_scid is Some)
        &&& holds_cid(raw.retry_scid, self.retry_scid)
        &&& raw.original_dcid_present == flag_of(self.original_dcid is Some)
        &&& holds_cid(raw.original_dcid, self.original_dcid)
        &&& raw.stateless_reset_token_present == flag_of(self.stateless_reset_token is Some)
        &&& self.stateless_reset_token matches Some(token) ==> raw.stateless_reset_token@ == token@
        &&& match self.preferred_addr {
            Some(preferred) => raw.preferred_addr matches Some(addr) && preferred.is_raw(addr),
            None => raw.preferred_addr is None,
        }
    }

    /// Returns these parameters as the engine takes them.
    pub fn to_raw(&self) -> (r: RawTransportParams)
        ensures
            self.is_raw(r),
    {
        RawTransportParams {
            initial_max_data: self.initial_max_data,
            initial_max_stream_data_bidi_local: self.initial_max_stream_data_bidi_local,
            initial_max_stream_data_bidi_remote: self.initial_max_stream_data_bidi_remote,
            initial_max_stream_data_uni: self.initial_max_stream_data_uni,
            initial_max_streams_bidi: self.initial_max_streams_bidi,
            initial_max_streams_uni: self.initial_max_streams_uni,
            max_idle_timeout: self.max_idle_timeout,
            max_udp_payload_size: self.max_udp_payload_size,
            active_connection_id_limit: self.active_connection_id_limit,
            ack_delay_exponent: self.ack_delay_exponent,
            max_ack_delay: self.max_ack_delay,
            max_datagram_frame_size: self.max_datagram_frame_size,
            disable_active_migration: flag(self.disable_active_migration),
            grease_quic_bit: flag(self.grease_quic_bit),
            reset_stream_at: flag(self.reset_stream_at),
            retry_scid_present: flag(self.retry_scid.is_some()),
            retry_scid: cid_field(&self.retry_scid),
            original_dcid_present: flag(self.original_dcid.is_some()),
            original_dcid: cid_field(&self.original_dcid),
            stateless_reset_token_present: flag(self.stateless_reset_token.is_some()),
            stateless_reset_token: match &self.stateless_reset_token {
                Some(token) => *token.as_bytes(),
                None => [0; 16],
            },
            preferred_addr: match &self.preferred_addr {
                Some(preferred) => Some(
                    RawPreferredAddress {
                        cid: cid_to_raw(&preferred.cid),
                        ipv4: preferred.ipv4,
                        ipv6: preferred.ipv6,
                        stateless_reset_token: *preferred.stateless_reset_token.as_bytes(),
                    },
                ),
                None => None,
            },
        }
    }
}

impl PreferredAddress {
    /// Whether the engine is to take this address as `raw`.
    pub open spec fn is_raw(self, raw: RawPreferredAddress) -> bool {
        &&& raw.cid.datalen == self.cid@.len()
        &&& raw.cid.bytes() == self.cid@
        &&& raw.ipv4 == self.ipv4
        &&& raw.ipv6 == self.ipv6
        &&& raw.stateless_reset_token@ == self.stateless_reset_token@
    }
}

/// The number that the engine takes for a flag.
pub open spec fn flag_of(set: bool) -> u8 {
    if set {
        1
    } else {
        0
    }
}

/// Returns the number that the engine takes for a flag.
fn flag(set: bool) -> (r: u8)
    ensures
        r == flag_of(set),
{
    if set {
        1
    } else {
        0
    }
}

/// Whether `raw` is the connection ID, or the empty one if there is none.
pub open spec fn holds_cid(raw: RawCid, cid: Option<ConnectionId>) -> bool {
    let bytes = match cid {
        Some(cid) => cid@,
        None => Seq::empty(),
    };
    raw.datalen == bytes.len() && raw.bytes() == bytes
}

/// Returns a connection ID as the engine takes it, or the empty one if there is none.
fn cid_field(cid: &Option<ConnectionId>) -> (r: RawCid)
    ensures
        holds_cid(r, *cid),
{
    match cid {
        Some(cid) => cid_to_raw(cid),
        None => cid_to_raw(&ConnectionId::empty()),
    }
}

/// What one side hands to the engine is what its peer reads.
pub proof fn lemma_params_roundtrip(
    params: TransportParams,
    raw: RawTransportParams,
    read: RemoteTransportParams,
)
    requires
        params.is_raw(raw),
        read.is_raw(raw),
    ensures
        read.initial_max_data == params@.initial_max_data,
        read.initial_max_stream_data_bidi_local == params@.initial_max_stream_data_bidi_local,
        read.initial_max_stream_data_bidi_remote == params@.initial_max_stream_data_bidi_remote,
        read.initial_max_stream_data_uni == params@.initial_max_stream_data_uni,
        read.initial_max_streams_bidi == params@.initial_max_streams_bidi,
        read.initial_max_streams_uni == params@.initial_max_streams_uni,
        read.max_idle_timeout.nanos == params@.max_idle_timeout,
        read.max_udp_payload_size == params@.max_udp_payload_size,
        read.active_connection_id_limit == params@.active_connection_id_limit,
        read.ack_delay_exponent == params@.ack_delay_exponent,
        read.max_ack_delay.nanos == params@.max_ack_delay,
        read.max_datagram_frame_size == params@.max_datagram_frame_size,
        read.disable_active_migration == params@.disable_active_migration,
        read.grease_quic_bit == params@.grease_quic_bit,
        read.reset_stream_at == params@.reset_stream_at,
        cid_bytes(read.retry_scid) == params@.retry_scid,
{
}

impl Clone for PreferredAddress {
    fn clone(&self) -> (r: PreferredAddress)
        ensures
            r@ == self@,
    {
        PreferredAddress {
            cid: self.cid.clone(),
            ipv4: self.ipv4,
            ipv6: self.ipv6,
            stateless_reset_token: self.stateless_reset_token,
        }
    }
}

/// Returns a copy of a connection ID, if there is one.
fn copied_cid(cid: &Option<ConnectionId>) -> (r: Option<ConnectionId>)
    ensures
        cid_bytes(r) == cid_bytes(*cid),
{
    match cid {
        Some(cid) => Some(cid.clone()),
        None => None,
    }
}

impl Clone for TransportParams {
    fn clone(&self) -> (r: TransportParams)
        ensures
            r@ == self@,
    {
        TransportParams {
            initial_max_data: self.initial_max_data,
            initial_max_stream_data_bidi_local: self.initial_max_stream_data_bidi_local,
            initial_max_stream_data_bidi_remote: self.initial_max_stream_data_bidi_remote,
            initial_max_stream_data_uni: self.initial_max_stream_data_uni,
            initial_max_streams_bidi: self.initial_max_streams_bidi,
            initial_max_streams_uni: self.initial_max_streams_uni,
            max_idle_timeout: self.max_idle_timeout,
            max_udp_payload_size: self.max_udp_payload_size,
            active_connection_id_limit: self.active_connection_id_limit,
            ack_delay_exponent: self.ack_delay_exponent,
            max_ack_delay: self.max_ack_delay,
            max_datagram_frame_size: self.max_datagram_frame_size,
            disable_active_migration: self.disable_active_migration,
            grease_quic_bit: self.grease_quic_bit,
            reset_stream_at: self.reset_stream_at,
            stateless_reset_token: self.stateless_reset_token,
            original_dcid: copied_cid(&self.original_dcid),
            retry_scid: copied_cid(&self.retry_scid),
            preferred_addr: match &self.preferred_addr {
                Some(preferred) => Some(preferred.clone()),
                None => None,
            },
        }
    }
}

impl Default for TransportParams {
    fn default() -> (r: TransportParams)
        ensures
            r@ == default_params(),
    {
        TransportParams::new()
    }
}

/// A time span is announced to the nanosecond as long as 64 bits hold it; a longer one is announced as
/// the longest but one.
pub proof fn lemma_announced_span(duration: Duration)
    ensures
        nanos_within(duration) == (if duration.nanos <= 0xffff_ffff_ffff_ffff {
            duration.nanos as int
        } else {
            0xffff_ffff_ffff_fffe
        }),
{
}

/// A preferred address reads back as the one that was set, without flow information and scope.
pub proof fn lemma_preferred_address_roundtrip(
    now: PreferredAddressView,
    former: Option<PreferredAddressView>,
    cid: Seq<u8>,
    addr: SocketAddr,
    token: Seq<u8>,
)
    requires
        TransportParams::prefers(now, former, cid, addr, token),
    ensures
        (if addr is V4 {
            now.ipv4
        } else {
            now.ipv6
        }) matches Some(raw) && raw.address() == Some(crate::addr::without_scope(addr)),
{
    let raw = if addr is V4 {
        now.ipv4->0
    } else {
        now.ipv6->0
    };
    crate::addr::lemma_sockaddr_roundtrip(raw, addr, false);
}

/// A time span that is announced never turns into the number that switches a timer off, unless it
/// is that number itself.
pub proof fn lemma_announced_span_is_finite(duration: Duration)
    requires
        duration.nanos != u64::MAX,
    ensures
        nanos_within(duration) != u64::MAX,
        duration.nanos < u64::MAX ==> nanos_within(duration) == duration.nanos,
{
}

} // verus!
