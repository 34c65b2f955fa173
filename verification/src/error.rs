//! The error type and the classification of connection errors.

use vstd::prelude::*;

use crate::text::push_decimal;

verus! {

/// An argument is not acceptable.
pub const NGTCP2_ERR_INVALID_ARGUMENT: i32 = -201;

/// A buffer is too small.
pub const NGTCP2_ERR_NOBUF: i32 = -202;

/// The connection is in a state in which the operation cannot be done.
pub const NGTCP2_ERR_INVALID_STATE: i32 = -204;

/// A stream is blocked by flow control.
pub const NGTCP2_ERR_STREAM_DATA_BLOCKED: i32 = -208;

/// The TLS stack failed.
pub const NGTCP2_ERR_CRYPTO: i32 = -213;

/// The write side of a stream is shut down.
pub const NGTCP2_ERR_STREAM_SHUT_WR: i32 = -219;

/// The connection is in the closing period.
pub const NGTCP2_ERR_CLOSING: i32 = -223;

/// The connection is in the draining period.
pub const NGTCP2_ERR_DRAINING: i32 = -224;

/// A packet was discarded.
pub const NGTCP2_ERR_DISCARD_PKT: i32 = -226;

/// More data can be put into the packet that is being built.
pub const NGTCP2_ERR_WRITE_MORE: i32 = -230;

/// The server must send a Retry packet.
pub const NGTCP2_ERR_RETRY: i32 = -231;

/// The connection is to be dropped without a word.
pub const NGTCP2_ERR_DROP_CONN: i32 = -232;

/// The connection timed out.
pub const NGTCP2_ERR_IDLE_CLOSE: i32 = -238;

/// A callback failed.
pub const NGTCP2_ERR_CALLBACK_FAILURE: i32 = -502;

/// What can go wrong.
#[derive(Debug)]
pub enum Error {
    /// An error that the engine reported: its message and its code.
    Ngtcp2(String, i32),
    /// An argument that is not acceptable.
    InvalidArgument(String),
    /// The connection is closed for good, by the peer or by a timeout.
    ConnectionClosed,
    /// The stream is blocked by flow control (RFC 9000 Section 4.1).
    ///
    /// This concerns one stream, not the connection.
    StreamDataBlocked(i64),
    /// The write side of the stream is shut down.
    ///
    /// This concerns one stream, not the connection.
    StreamShutWr(i64),
    /// A fault on this side.
    Internal(String),
}

/// What an error means for the connection on which it came up.
#[derive(Debug, Clone, Copy, PartialEq, Eq, Structural)]
pub enum ConnectionErrorKind {
    /// Nothing is to be done: a packet was discarded, or one stream is concerned.
    Ignore,
    /// The connection is dropped without a CONNECTION_CLOSE.
    SilentDrop,
    /// The connection is closing or draining already and goes away by itself.
    Terminal,
    /// A transport error: a CONNECTION_CLOSE (0x1c) is sent (RFC 9000 Section 11.1).
    TransportClose,
    /// An application error: a CONNECTION_CLOSE (0x1d) is sent (RFC 9000 Section 11.1).
    ApplicationClose,
    /// A fault on this side: the connection is dropped, since no error code describes it.
    Internal,
}

impl Error {
    /// The class of this error.
    pub open spec fn kind(self) -> ConnectionErrorKind {
        match self {
            Error::Ngtcp2(_, code) => if code == NGTCP2_ERR_DISCARD_PKT {
                ConnectionErrorKind::Ignore
            } else if code == NGTCP2_ERR_DROP_CONN || code == NGTCP2_ERR_IDLE_CLOSE || code
                == NGTCP2_ERR_RETRY {
                ConnectionErrorKind::SilentDrop
            } else if code == NGTCP2_ERR_DRAINING || code == NGTCP2_ERR_CLOSING {
                ConnectionErrorKind::Terminal
            } else {
                ConnectionErrorKind::TransportClose
            },
            Error::StreamDataBlocked(_) | Error::StreamShutWr(_) => ConnectionErrorKind::Ignore,
            Error::ConnectionClosed => ConnectionErrorKind::Terminal,
            Error::InvalidArgument(_) | Error::Internal(_) => ConnectionErrorKind::Internal,
        }
    }

    /// Whether this error asks for a Retry packet.
    pub open spec fn asks_retry(self) -> bool {
        self matches Error::Ngtcp2(_, code) && code == NGTCP2_ERR_RETRY
    }

    /// The text that describes this error.
    pub open spec fn text(self) -> Seq<char> {
        match self {
            Error::Ngtcp2(message, code) => "ngtcp2 error: "@ + message@ + " ("@
                + crate::text::decimal(code as int) + ")"@,
            Error::InvalidArgument(message) => "invalid argument: "@ + message@,
            Error::ConnectionClosed => "connection is closed"@,
            Error::StreamDataBlocked(id) => "stream data blocked: "@ + crate::text::decimal(
                id as int,
            ),
            Error::StreamShutWr(id) => "stream shut wr: "@ + crate::text::decimal(id as int),
            Error::Internal(message) => "internal error: "@ + message@,
        }
    }

    /// Whether this is the engine's error `code` with the engine's message for it.
    pub open spec fn reports(self, code: i32, message: Option<String>) -> bool {
        self matches Error::Ngtcp2(m, c) && c == code && m@ == (match message {
            Some(text) => text@,
            None => "unknown error"@,
        })
    }

    /// Whether this is an invalid argument error with the message `text`.
    pub open spec fn is_invalid_argument(self, text: Seq<char>) -> bool {
        self matches Error::InvalidArgument(m) && m@ == text
    }

    /// Whether this is an internal error with the message `text`.
    pub open spec fn is_internal(self, text: Seq<char>) -> bool {
        self matches Error::Internal(m) && m@ == text
    }

    /// Makes an invalid argument error with the message `text`.
    pub fn invalid_argument(text: &str) -> (r: Error)
        ensures
            r.is_invalid_argument(text@),
    {
        Error::InvalidArgument(text.to_owned())
    }

    /// Makes an internal error with the message `text`.
    pub fn internal(text: &str) -> (r: Error)
        ensures
            r.is_internal(text@),
    {
        Error::Internal(text.to_owned())
    }

    /// Makes an error out of an error code of the engine and the engine's message for it.
    pub fn from_ngtcp2(code: i32, message: Option<String>) -> (r: Error)
        ensures
            r.reports(code, message),
    {
        let text: String = match message {
            Some(text) => text,
            None => "unknown error".to_owned(),
        };
        Error::Ngtcp2(text, code)
    }

    /// Returns whether the engine asks for a Retry packet.
    ///
    /// A server gets this when an Initial carries no token (RFC 9000 Section 8.1.2): the
    /// connection is dropped, a Retry is sent and the client connects again.
    pub fn is_retry_required(&self) -> (r: bool)
        ensures
            r == self.asks_retry(),
    {
        match self {
            Error::Ngtcp2(_, code) => *code == NGTCP2_ERR_RETRY,
            _ => false,
        }
    }

    /// Returns what this error means for the connection.
    pub fn classify_connection_error(&self) -> (r: ConnectionErrorKind)
        ensures
            r == self.kind(),
    {
        match self {
            Error::Ngtcp2(_, code) => {
                let code: i32 = *code;
                if code == NGTCP2_ERR_DISCARD_PKT {
                    ConnectionErrorKind::Ignore
                } else if code == NGTCP2_ERR_DROP_CONN || code == NGTCP2_ERR_IDLE_CLOSE || code
                    == NGTCP2_ERR_RETRY {
                    ConnectionErrorKind::SilentDrop
                } else if code == NGTCP2_ERR_DRAINING || code == NGTCP2_ERR_CLOSING {
                    ConnectionErrorKind::Terminal
                } else {
                    ConnectionErrorKind::TransportClose
                }
            },
            Error::StreamDataBlocked(_) | Error::StreamShutWr(_) => ConnectionErrorKind::Ignore,
            Error::ConnectionClosed => ConnectionErrorKind::Terminal,
            Error::InvalidArgument(_) | Error::Internal(_) => ConnectionErrorKind::Internal,
        }
    }

    /// Returns the text that describes this error.
    pub fn display(&self) -> (r: String)
        ensures
            r@ == self.text(),
    {
        let mut out: String = String::new();
        match self {
            Error::Ngtcp2(message, code) => {
                out.append("ngtcp2 error: ");
                out.append(message.as_str());
                out.append(" (");
                push_decimal(&mut out, *code as i64);
                out.append(")");
            },
            Error::InvalidArgument(message) => {
                out.append("invalid argument: ");
                out.append(message.as_str());
            },
            Error::ConnectionClosed => {
                out.append("connection is closed");
            },
            Error::StreamDataBlocked(id) => {
                out.append("stream data blocked: ");
                push_decimal(&mut out, *id);
            },
            Error::StreamShutWr(id) => {
                out.append("stream shut wr: ");
                push_decimal(&mut out, *id);
            },
            Error::Internal(message) => {
                out.append("internal error: ");
                out.append(message.as_str());
            },
        }
        assert(out@ =~= self.text());
        out
    }
}

/// What an error of the engine means follows from its code alone: a discarded packet (-226) means
/// nothing, a connection that is to be dropped (-232), has timed out (-238) or needs a Retry (-231)
/// goes without a word, one that closes (-223) or drains (-224) goes by itself, and every other error
/// closes the connection with a CONNECTION_CLOSE of the transport.
pub proof fn lemma_engine_error_classes(e: Error, code: i32)
    requires
        e matches Error::Ngtcp2(_, c) && c == code,
    ensures
        e.kind() == ConnectionErrorKind::Ignore <==> code == -226,
        e.kind() == ConnectionErrorKind::SilentDrop <==> code == -232 || code == -238 || code
            == -231,
        e.kind() == ConnectionErrorKind::Terminal <==> code == -223 || code == -224,
        e.kind() == ConnectionErrorKind::TransportClose <==> code != -226 && code != -232 && code
            != -238 && code != -231 && code != -223 && code != -224,
        e.asks_retry() <==> code == -231,
{
}

/// An error on this side never sends a CONNECTION_CLOSE, and a connection that is closed stays so.
pub proof fn lemma_own_error_classes(e: Error)
    ensures
        e is InvalidArgument || e is Internal ==> e.kind() == ConnectionErrorKind::Internal,
        e is ConnectionClosed ==> e.kind() == ConnectionErrorKind::Terminal,
        e.kind() != ConnectionErrorKind::ApplicationClose,
        e.asks_retry() ==> e is Ngtcp2,
{
}

/// The text of an error tells its code, its stream or its message: errors of one kind that differ in
/// these have different texts.
pub proof fn lemma_text_tells_errors_apart(e: Error, f: Error)
    requires
        e.text() == f.text(),
    ensures
        e matches Error::Ngtcp2(m, code) ==> (f matches Error::Ngtcp2(n, other) ==> (m@ == n@ ==> code
            == other) && (code == other ==> m@ == n@)),
        e matches Error::InvalidArgument(m) ==> (f matches Error::InvalidArgument(n) ==> m@ == n@),
        e matches Error::Internal(m) ==> (f matches Error::Internal(n) ==> m@ == n@),
        e matches Error::StreamDataBlocked(id) ==> (f matches Error::StreamDataBlocked(other) ==> id
            == other),
        e matches Error::StreamShutWr(id) ==> (f matches Error::StreamShutWr(other) ==> id == other),
{
    match (e, f) {
        (Error::Ngtcp2(m, code), Error::Ngtcp2(n, other)) => {
            if m@ == n@ {
                let head = "ngtcp2 error: "@ + m@ + " ("@;
                let a = crate::text::decimal(code as int);
                let b = crate::text::decimal(other as int);
                let k = head.len() as int;
                assert(e.text().len() == k + a.len() + ")"@.len());
                assert(f.text().len() == k + b.len() + ")"@.len());
                assert(e.text().subrange(k, k + a.len()) =~= a);
                assert(f.text().subrange(k, k + b.len()) =~= b);
                crate::text::lemma_decimal_injective(code as int, other as int);
            }
            if code == other {
                let k = "ngtcp2 error: "@.len() as int;
                let tail = " ("@ + crate::text::decimal(code as int) + ")"@;
                assert(e.text().len() == k + m@.len() + tail.len());
                assert(f.text().len() == k + n@.len() + tail.len());
                assert(e.text().subrange(k, k + m@.len()) =~= m@);
                assert(f.text().subrange(k, k + n@.len()) =~= n@);
            }
        },
        (Error::InvalidArgument(m), Error::InvalidArgument(n)) => {
            assert(e.text().skip("invalid argument: "@.len() as int) =~= m@);
            assert(f.text().skip("invalid argument: "@.len() as int) =~= n@);
        },
        (Error::Internal(m), Error::Internal(n)) => {
            assert(e.text().skip("internal error: "@.len() as int) =~= m@);
            assert(f.text().skip("internal error: "@.len() as int) =~= n@);
        },
        (Error::StreamDataBlocked(a), Error::StreamDataBlocked(b)) => {
            let k = "stream data blocked: "@.len() as int;
            assert(e.text().skip(k) =~= crate::text::decimal(a as int));
            assert(f.text().skip(k) =~= crate::text::decimal(b as int));
            crate::text::lemma_decimal_injective(a as int, b as int);
        },
        (Error::StreamShutWr(a), Error::StreamShutWr(b)) => {
            let k = "stream shut wr: "@.len() as int;
            assert(e.text().skip(k) =~= crate::text::decimal(a as int));
            assert(f.text().skip(k) =~= crate::text::decimal(b as int));
            crate::text::lemma_decimal_injective(a as int, b as int);
        },
        _ => {},
    }
}

/// An error that asks for a Retry drops the connection without a CONNECTION_CLOSE.
pub proof fn lemma_retry_drops_silently(e: Error)
    requires
        e.asks_retry(),
    ensures
        e.kind() == ConnectionErrorKind::SilentDrop,
{
}

/// A signal that concerns one stream never closes the connection.
pub proof fn lemma_stream_signals_are_ignored(e: Error)
    requires
        e is StreamDataBlocked || e is StreamShutWr,
    ensures
        e.kind() == ConnectionErrorKind::Ignore,
        !e.asks_retry(),
{
}

/// Turns a result code of the engine into a result; `message` is the engine's text for the code.
pub fn check_ngtcp2(code: i32, message: Option<String>) -> (r: Result<(), Error>)
    ensures
        code >= 0 ==> r is Ok,
        code < 0 ==> (r matches Err(e) && e.reports(code, message)),
{
    if code < 0 {
        Err(Error::from_ngtcp2(code, message))
    } else {
        Ok(())
    }
}

/// Turns what the engine returned from a write into the number of bytes written; `message` is the
/// engine's text for an error code.
pub fn check_written(rv: isize, message: Option<String>) -> (r: Result<usize, Error>)
    ensures
        rv >= 0 ==> r == Ok::<usize, Error>(rv as usize),
        rv < 0 ==> (r matches Err(e) && e.reports(rv as i32, message)),
{
    if rv < 0 {
        Err(Error::from_ngtcp2(rv as i32, message))
    } else {
        Ok(rv as usize)
    }
}

} // verus!
