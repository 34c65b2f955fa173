//! What happens on a connection.
//!
//! The engine reports through callbacks, which must not call back into the application. What they
//! report is queued and taken out in the order in which it happened.

use vstd::prelude::*;

use crate::types::{PathInfo, StreamId};

verus! {

/// Something that happened on a connection.
#[derive(Debug, Clone, PartialEq, Eq)]
pub enum ConnectionEvent {
    /// The handshake is complete (RFC 9001 Section 4.1.1).
    HandshakeCompleted,
    /// The handshake is confirmed (RFC 9001 Section 4.1.2); reported to clients only.
    HandshakeConfirmed,
    /// 0-RTT data was rejected (RFC 9001 Section 4.6.2); reported to clients only.
    ///
    /// The streams that were opened for it are gone; the application opens them anew.
    EarlyDataRejected,
    /// The peer opened a stream (RFC 9000 Section 2.1).
    StreamOpened {
        /// The stream.
        stream_id: StreamId,
    },
    /// Stream data arrived (RFC 9000 Section 19.8), in order and without repetition.
    StreamData {
        /// The stream.
        stream_id: StreamId,
        /// The data.
        data: Vec<u8>,
        /// Whether the stream ends with this data, which may be empty.
        fin: bool,
    },
    /// A stream is closed in both directions (RFC 9000 Section 3.3).
    StreamClosed {
        /// The stream.
        stream_id: StreamId,
        /// The error with which the receiving side ended; none if it ended in order.
        rx_app_error_code: Option<u64>,
        /// The error with which the sending side ended; none if it ended in order.
        tx_app_error_code: Option<u64>,
    },
    /// The peer reset a stream (RFC 9000 Section 19.4).
    StreamReset {
        /// The stream.
        stream_id: StreamId,
        /// The final size of the stream.
        final_size: u64,
        /// The application's error code.
        app_error_code: u64,
    },
    /// The peer does not want to receive a stream any more (RFC 9000 Section 19.5).
    StreamStopSending {
        /// The stream.
        stream_id: StreamId,
        /// The application's error code.
        app_error_code: u64,
    },
    /// More may be sent on a stream (RFC 9000 Section 19.10).
    StreamMaxData {
        /// The stream.
        stream_id: StreamId,
        /// How much may be sent in all.
        max_data: u64,
    },
    /// More bidirectional streams may be opened (RFC 9000 Section 19.11).
    MaxStreamsBidi {
        /// How many may be opened in all.
        max_streams: u64,
    },
    /// More unidirectional streams may be opened (RFC 9000 Section 19.11).
    MaxStreamsUni {
        /// How many may be opened in all.
        max_streams: u64,
    },
    /// A datagram arrived (RFC 9221).
    Datagram {
        /// The data.
        data: Vec<u8>,
    },
    /// The peer has lost the state of the connection (RFC 9000 Section 10.3).
    StatelessResetReceived,
    /// The validation of a path has ended (RFC 9000 Section 8.2).
    PathValidated {
        /// The path.
        path: PathInfo,
        /// Whether the path is valid; if not, the former one stays in use.
        success: bool,
    },
}

} // verus!
