//! Verified logic of a QUIC endpoint built on the ngtcp2 engine.

use vstd::prelude::*;

pub mod addr;
pub mod alpn;
pub mod bytes;
pub mod callbacks;
pub mod calls;
pub mod cert;
pub mod config;
pub mod conn;
pub mod crypto;
pub mod driver;
pub mod error;
pub mod event;
pub mod inflight;
pub mod interop;
pub mod laws;
pub mod packet;
pub mod rand;
pub mod reset;
pub mod retry;
pub mod settings;
pub mod setup;
pub mod stats;
pub mod text;
pub mod types;
pub mod varint;
pub mod version;

pub use config::{RemoteTransportParams, TransportParams};
pub use conn::{Connection, ConnectionError, SessionTicket, WRITE_STREAM_FLAG_MORE};
pub use crypto::{TlsContext, TlsSession};
pub use error::{ConnectionErrorKind, Error};
pub use event::ConnectionEvent;
pub use reset::{
    write_stateless_reset, StatelessResetSecret, StatelessResetToken, MIN_STATELESS_RESET_SIZE,
    STATELESS_RESET_SECRET_LEN, STATELESS_RESET_TOKEN_LEN,
};
pub use retry::{
    accept_initial, generate_new_token, generate_retry_token, token_kind, verify_new_token,
    verify_retry_token, write_retry_packet, write_stateless_connection_close, AcceptedInitial,
    AddressValidationToken, AddressValidationTokenKind, RetrySecret, MAX_NEW_TOKEN_LEN,
    MAX_RETRY_TOKEN_LEN, RETRY_SECRET_LEN, TRANSPORT_ERROR_INVALID_TOKEN,
};
pub use settings::{
    CongestionAlgorithm, Settings, DEFAULT_INITIAL_RTT, DEFAULT_MAX_TX_UDP_PAYLOAD_SIZE,
};
pub use stats::ConnStats;
pub use types::{
    ConnectionId, PacketInfo, PathInfo, QuicVersion, StreamDirection, StreamId, StreamType,
    NGTCP2_PROTO_VER_V1, NGTCP2_PROTO_VER_V2,
};
pub use version::{
    decode_packet_version, long_header_type, write_version_negotiation, LongHeaderType,
    PacketVersion, MIN_INITIAL_DATAGRAM_SIZE,
};

verus! {

/// The version of the ngtcp2 engine that the library is written for.
pub const NGTCP2_VERSION: &'static str = "1.25.90";

/// The shortest Destination Connection ID that the first Initial of a client may have
/// (RFC 9000 Section 7.2).
pub const MIN_INITIAL_DCIDLEN: usize = 8;

/// The version of the ngtcp2 engine that is linked: `linked`, what the engine reports, or
/// `"unknown"` if it reports none.
pub fn ngtcp2_version(linked: Option<&'static str>) -> (r: &'static str)
    ensures
        r@ == (match linked {
            Some(version) => version@,
            None => "unknown"@,
        }),
{
    match linked {
        Some(version) => version,
        None => "unknown",
    }
}

} // verus!
