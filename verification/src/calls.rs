//! Calls into the engine on a connection: what is handed over, and what the results mean.

use vstd::prelude::*;
use vstd::slice::slice_to_vec;

use crate::addr::{sockaddr_to_raw, RawSockaddr};
use crate::config::{RawTransportParams, RemoteTransportParams};
use crate::conn::Connection;
use crate::error::{check_ngtcp2, check_written, Error};
use crate::stats::{ConnInfo, ConnStats};
use crate::types::{PacketInfo, PathInfo, QuicVersion, StreamId};

verus! {

/// A path in the form that the engine takes.
#[derive(Debug, Clone, Copy)]
pub struct RawPath {
    /// The local address.
    pub local: RawSockaddr,
    /// The remote address.
    pub remote: RawSockaddr,
}

impl RawPath {
    /// Whether this is `path`.
    pub open spec fn holds(self, path: PathInfo) -> bool {
        &&& self.local.holds(path.local, true)
        &&& self.remote.holds(path.remote, true)
    }
}

/// Returns `path` in the form that the engine takes.
pub fn raw_path(path: &PathInfo) -> (r: RawPath)
    ensures
        r.holds(*path),
{
    RawPath { local: sockaddr_to_raw(&path.local), remote: sockaddr_to_raw(&path.remote) }
}

/// A path is read back from the form that the engine takes, but for flow information and scope.
pub proof fn lemma_path_roundtrip(raw: RawPath, path: PathInfo)
    requires
        raw.holds(path),
    ensures
        crate::addr::path_of(Some(raw.local), Some(raw.remote)) == Some(
            PathInfo {
                local: crate::addr::without_scope(path.local),
                remote: crate::addr::without_scope(path.remote),
            },
        ),
{
    crate::addr::lemma_sockaddr_roundtrip(raw.local, path.local, true);
    crate::addr::lemma_sockaddr_roundtrip(raw.remote, path.remote, true);
}

/// A packet that the engine is to read.
#[derive(Debug, Clone, Copy)]
pub struct PacketRead {
    /// The path on which it came.
    pub path: RawPath,
    /// Its ECN mark.
    pub ecn: u8,
}

/// Which sides of a stream are shut down.
#[derive(Debug, Clone, Copy, PartialEq, Eq, Structural)]
pub enum StreamSide {
    /// Both.
    Both,
    /// The sending side.
    Write,
    /// The receiving side.
    Read,
}

/// A stream that the engine is to shut down.
#[derive(Debug, Clone, Copy, PartialEq, Eq, Structural)]
pub struct StreamShutdown {
    /// Which sides.
    pub side: StreamSide,
    /// Whether what was written so far is delivered nonetheless.
    pub flush: bool,
    /// The stream.
    pub stream_id: StreamId,
    /// The application's error code.
    pub error_code: u64,
}

/// A CONNECTION_CLOSE that the engine is to write (RFC 9000 Section 19.19).
#[derive(Debug)]
pub struct CloseFrame {
    /// Whether the error is the application's (0x1d); otherwise it is one of the transport (0x1c).
    pub is_application: bool,
    /// The error code.
    pub error_code: u64,
    /// The reason.
    pub reason: Vec<u8>,
}

/// What may be done on a connection once a packet was read.
#[derive(Debug, Clone, Copy, PartialEq, Eq, Structural)]
pub enum AfterRead {
    /// Packets are written.
    Write,
    /// A CONNECTION_CLOSE is written and nothing else, with the code that the engine gives for its
    /// own error code, or 0 if the error is not the engine's.
    Close {
        /// The engine's error code.
        code: Option<i32>,
    },
    /// Nothing is written.
    Nothing,
}

/// What may be done once reading a packet has ended with `error`.
pub open spec fn allowed_after(error: Option<Error>) -> AfterRead {
    match error {
        None => AfterRead::Write,
        Some(e) => match e.kind() {
            crate::error::ConnectionErrorKind::Ignore => AfterRead::Write,
            crate::error::ConnectionErrorKind::TransportClose
            | crate::error::ConnectionErrorKind::ApplicationClose => AfterRead::Close {
                code: match e {
                    Error::Ngtcp2(_, code) => Some(code),
                    _ => None,
                },
            },
            _ => AfterRead::Nothing,
        },
    }
}

/// Packets are only written as long as the connection goes on: after an error of the engine that
/// does not merely discard a packet, at most a CONNECTION_CLOSE is.
pub proof fn lemma_engine_errors_stop_writing(e: Error)
    requires
        e matches Error::Ngtcp2(_, code) && code != crate::error::NGTCP2_ERR_DISCARD_PKT,
    ensures
        allowed_after(Some(e)) != AfterRead::Write,
{
}

/// What may be written after an error depends on the error alone: without one, after a discarded packet
/// (-226) and after a signal of one stream the connection goes on; an error of the engine that neither
/// drops nor ends the connection is told to the peer with its code; else nothing is written.
pub proof fn lemma_what_follows_a_read(e: Error)
    ensures
        allowed_after(None) == AfterRead::Write,
        e is StreamDataBlocked || e is StreamShutWr ==> allowed_after(Some(e)) == AfterRead::Write,
        e is ConnectionClosed || e is InvalidArgument || e is Internal ==> allowed_after(Some(e))
            == AfterRead::Nothing,
        e matches Error::Ngtcp2(_, code) ==> allowed_after(Some(e)) == (if code == -226 {
            AfterRead::Write
        } else if code == -232 || code == -238 || code == -231 || code == -223 || code == -224 {
            AfterRead::Nothing
        } else {
            AfterRead::Close { code: Some(code) }
        }),
{
}

/// Returns what may be done once reading a packet has ended with `error`, or without one.
pub fn after_read(error: Option<&Error>) -> (r: AfterRead)
    ensures
        r == allowed_after(
            match error {
                Some(e) => Some(*e),
                None => None,
            },
        ),
{
    match error {
        None => AfterRead::Write,
        Some(e) => match e.classify_connection_error() {
            crate::error::ConnectionErrorKind::Ignore => AfterRead::Write,
            crate::error::ConnectionErrorKind::TransportClose
            | crate::error::ConnectionErrorKind::ApplicationClose => AfterRead::Close {
                code: match e {
                    Error::Ngtcp2(_, code) => Some(*code),
                    _ => None,
                },
            },
            _ => AfterRead::Nothing,
        },
    }
}

impl Connection {
    /// Prepares the reading of a packet that came on `path`.
    ///
    /// The result of the engine is one for [`check_ngtcp2`], and [`after_read`] says what may
    /// follow.
    pub fn read_pkt(path: &PathInfo, pkt_info: &PacketInfo) -> (r: PacketRead)
        ensures
            r.path.holds(*path),
            r.ecn == pkt_info.ecn,
    {
        PacketRead { path: raw_path(path), ecn: pkt_info.ecn }
    }

    /// Takes the stream that the engine opened, or its error code.
    fn opened(rv: i32, stream_id: StreamId, message: Option<String>) -> (r: Result<StreamId, Error>)
        ensures
            rv >= 0 ==> r == Ok::<StreamId, Error>(stream_id),
            rv < 0 ==> (r matches Err(e) && e.reports(rv, message)),
    {
        match check_ngtcp2(rv, message) {
            Ok(()) => Ok(stream_id),
            Err(e) => Err(e),
        }
    }

    /// Takes the bidirectional stream that the engine opened, or its error code
    /// (RFC 9000 Section 2.1).
    pub fn open_bidi_stream(rv: i32, stream_id: StreamId, message: Option<String>) -> (r: Result<
        StreamId,
        Error,
    >)
        ensures
            rv >= 0 ==> r == Ok::<StreamId, Error>(stream_id),
            rv < 0 ==> (r matches Err(e) && e.reports(rv, message)),
    {
        Connection::opened(rv, stream_id, message)
    }

    /// Takes the unidirectional stream that the engine opened, or its error code
    /// (RFC 9000 Section 2.1).
    pub fn open_uni_stream(rv: i32, stream_id: StreamId, message: Option<String>) -> (r: Result<
        StreamId,
        Error,
    >)
        ensures
            rv >= 0 ==> r == Ok::<StreamId, Error>(stream_id),
            rv < 0 ==> (r matches Err(e) && e.reports(rv, message)),
    {
        Connection::opened(rv, stream_id, message)
    }

    /// Shuts both sides of a stream down.
    pub fn shutdown_stream(stream_id: StreamId, error_code: u64) -> (r: StreamShutdown)
        ensures
            r == (StreamShutdown { side: StreamSide::Both, flush: false, stream_id, error_code }),
    {
        StreamShutdown { side: StreamSide::Both, flush: false, stream_id, error_code }
    }

    /// Shuts the sending side of a stream down (RFC 9000 Section 3.3).
    ///
    /// What is not delivered yet is lost.
    pub fn shutdown_stream_write(stream_id: StreamId, error_code: u64) -> (r: StreamShutdown)
        ensures
            r == (StreamShutdown { side: StreamSide::Write, flush: false, stream_id, error_code }),
    {
        StreamShutdown { side: StreamSide::Write, flush: false, stream_id, error_code }
    }

    /// Shuts the sending side of a stream down; what was written so far is delivered nonetheless,
    /// if the peer supports it.
    pub fn shutdown_stream_write_reliable(stream_id: StreamId, error_code: u64) -> (r:
        StreamShutdown)
        ensures
            r == (StreamShutdown { side: StreamSide::Write, flush: true, stream_id, error_code }),
    {
        StreamShutdown { side: StreamSide::Write, flush: true, stream_id, error_code }
    }

    /// Shuts the receiving side of a stream down (RFC 9000 Section 3.5).
    pub fn shutdown_stream_read(stream_id: StreamId, error_code: u64) -> (r: StreamShutdown)
        ensures
            r == (StreamShutdown { side: StreamSide::Read, flush: false, stream_id, error_code }),
    {
        StreamShutdown { side: StreamSide::Read, flush: false, stream_id, error_code }
    }

    /// Returns the version that was negotiated; none before there is one, or if it is not known.
    pub fn negotiated_version(version: u32) -> (r: Option<QuicVersion>)
        ensures
            r == QuicVersion::of_wire(version),
    {
        QuicVersion::from_u32(version)
    }

    /// Returns the statistics of the connection.
    pub fn stats(raw: &ConnInfo) -> (r: ConnStats)
        ensures
            r.is_raw(*raw),
    {
        ConnStats::from_raw(raw)
    }

    /// Returns the transport parameters of the peer; none before they are known.
    pub fn remote_transport_params(raw: Option<&RawTransportParams>) -> (r: Option<
        RemoteTransportParams,
    >)
        requires
            raw matches Some(p) ==> (p.retry_scid_present != 0 ==> p.retry_scid.datalen <= 20),
        ensures
            match raw {
                Some(p) => r matches Some(params) && params.is_raw(*p),
                None => r is None,
            },
    {
        match raw {
            Some(p) => Some(RemoteTransportParams::from_raw(p)),
            None => None,
        }
    }

    /// Closes the connection with a transport error (RFC 9000 Section 10.2).
    pub fn write_connection_close(error_code: u64, reason: &[u8]) -> (r: CloseFrame)
        ensures
            !r.is_application,
            r.error_code == error_code,
            r.reason@ == reason@,
    {
        CloseFrame { is_application: false, error_code, reason: slice_to_vec(reason) }
    }

    /// Closes the connection with an error of the application (RFC 9000 Section 10.2).
    pub fn write_connection_close_app(error_code: u64, reason: &[u8]) -> (r: CloseFrame)
        ensures
            r.is_application,
            r.error_code == error_code,
            r.reason@ == reason@,
    {
        CloseFrame { is_application: true, error_code, reason: slice_to_vec(reason) }
    }

    /// Takes the length of the packets that close the connection, or the error code of the engine.
    pub fn write_ccerr(rv: isize, message: Option<String>) -> (r: Result<usize, Error>)
        ensures
            rv >= 0 ==> r == Ok::<usize, Error>(rv as usize),
            rv < 0 ==> (r matches Err(e) && e.reports(rv as i32, message)),
    {
        check_written(rv, message)
    }
}

} // verus!
