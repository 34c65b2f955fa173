//! The state that a connection keeps beside the engine.
//!
//! The engine reports through callbacks; what they report is collected here and taken out by the
//! application. Calls into the engine come in two halves: the first prepares what is handed to
//! it, and the second takes in what it returned.

use std::collections::BTreeMap;
use std::collections::VecDeque;

use vstd::prelude::*;
use vstd::slice::{slice_subrange, slice_to_vec};
use vstd::utf8::{decode_utf8, valid_utf8};

use crate::addr::{path_info_from_raw, RawSockaddr};
use crate::config::RemoteTransportParams;
use crate::crypto::TlsSession;
use crate::error::{
    check_written, Error, NGTCP2_ERR_CALLBACK_FAILURE, NGTCP2_ERR_INVALID_STATE,
    NGTCP2_ERR_STREAM_DATA_BLOCKED, NGTCP2_ERR_STREAM_SHUT_WR, NGTCP2_ERR_WRITE_MORE,
};
use crate::event::ConnectionEvent;
use crate::inflight::InFlightStreamData;
use crate::reset::{StatelessResetSecret, StatelessResetToken};
use crate::text::push_digits;
use crate::types::{ConnectionId, PacketInfo, PathInfo, StreamId};

verus! {

/// Lets the engine wait for more data before it completes a packet.
pub const WRITE_STREAM_FLAG_MORE: u32 = 0x01;

/// Ends the stream with the data that is written.
pub const WRITE_STREAM_FLAG_FIN: u32 = 0x02;

/// The text that `bytes` decode to if what is not UTF-8 is replaced.
pub uninterp spec fn utf8_lossy(bytes: Seq<u8>) -> Seq<char>;

/// Calls `String::from_utf8_lossy`, which decodes `bytes` and puts a replacement character in the
/// place of what is not UTF-8.
///
/// Of bytes that are UTF-8 throughout it is claimed that they decode to the text they encode; how
/// much a replacement character stands for is left unsaid.
#[verifier::external_body]
fn decode_lossy(bytes: &[u8]) -> (r: String)
    ensures
        r@ == utf8_lossy(bytes@),
        valid_utf8(bytes@) ==> r@ == decode_utf8(bytes@),
{
    String::from_utf8_lossy(bytes).into_owned()
}

/// Why a connection ended.
#[derive(Debug, Clone, PartialEq, Eq)]
pub struct ConnectionError {
    /// The error code (RFC 9000 Section 20).
    pub error_code: u64,
    /// The reason that the peer gave; empty if it gave none.
    pub reason: String,
    /// Whether the error is the application's; otherwise it is one of the transport.
    pub is_application: bool,
    /// Whether the connection ended with a CONNECTION_CLOSE; otherwise it timed out.
    pub has_error: bool,
}

/// The ways in which a connection can end.
#[derive(Debug, Clone, Copy, PartialEq, Eq, Structural)]
pub enum CloseKind {
    /// The application closed it.
    Application,
    /// It timed out.
    IdleClose,
    /// It ended in another way.
    Other,
}

impl CloseKind {
    /// Returns the way in which a connection has ended, given the engine's number for it and those
    /// for the two ways that are told apart.
    pub fn from_number(number: u32, application: u32, idle_close: u32) -> (r: CloseKind)
        ensures
            r == (if number == application {
                CloseKind::Application
            } else if number == idle_close {
                CloseKind::IdleClose
            } else {
                CloseKind::Other
            }),
    {
        if number == application {
            CloseKind::Application
        } else if number == idle_close {
            CloseKind::IdleClose
        } else {
            CloseKind::Other
        }
    }
}

/// What the engine keeps about the end of a connection.
pub struct CloseInfo {
    /// The error code.
    pub error_code: u64,
    /// The reason, if there is one.
    pub reason: Option<Vec<u8>>,
    /// How the connection ended.
    pub kind: CloseKind,
}

/// What a client stores to send 0-RTT data on a later connection (RFC 9001 Section 4.6).
///
/// The TLS session goes with the transport parameters of the server, since they limit how much may
/// be sent before the server can say so itself (RFC 9001 Section 4.6.1).
#[derive(PartialEq, Eq)]
pub struct SessionTicket {
    session: Vec<u8>,
    transport_params: Vec<u8>,
}

impl View for SessionTicket {
    type V = (Seq<u8>, Seq<u8>);

    closed spec fn view(&self) -> (Seq<u8>, Seq<u8>) {
        (self.session@, self.transport_params@)
    }
}

impl Clone for SessionTicket {
    fn clone(&self) -> (r: SessionTicket)
        ensures
            r@ == self@,
    {
        SessionTicket {
            session: slice_to_vec(self.session.as_slice()),
            transport_params: slice_to_vec(self.transport_params.as_slice()),
        }
    }
}

impl SessionTicket {
    /// Makes a ticket out of stored bytes.
    pub fn new(session: Vec<u8>, transport_params: Vec<u8>) -> (r: SessionTicket)
        ensures
            r@ == (session@, transport_params@),
    {
        SessionTicket { session, transport_params }
    }

    /// Returns the TLS session.
    pub fn session(&self) -> (r: &[u8])
        ensures
            r@ == self@.0,
    {
        self.session.as_slice()
    }

    /// Returns the transport parameters (RFC 9001 Section 4.6.1).
    pub fn transport_params(&self) -> (r: &[u8])
        ensures
            r@ == self@.1,
    {
        self.transport_params.as_slice()
    }

    /// Returns a text that tells the lengths only: the session would allow to resume the
    /// connection.
    pub fn debug(&self) -> (r: String)
        ensures
            r@ == "SessionTicket { session_len: "@ + crate::text::digits(self@.0.len())
                + ", transport_params_len: "@ + crate::text::digits(self@.1.len()) + " }"@,
    {
        let mut out: String = String::new();
        out.append("SessionTicket { session_len: ");
        push_digits(&mut out, self.session.len() as u64);
        out.append(", transport_params_len: ");
        push_digits(&mut out, self.transport_params.len() as u64);
        out.append(" }");
        assert(out@ =~= "SessionTicket { session_len: "@ + crate::text::digits(self@.0.len())
            + ", transport_params_len: "@ + crate::text::digits(self@.1.len()) + " }"@);
        out
    }
}

/// What the connection IDs in `cids` are.
pub open spec fn cid_views(cids: Seq<ConnectionId>) -> Seq<Seq<u8>> {
    cids.map_values(|cid: ConnectionId| cid@)
}

/// The state that the callbacks of a connection change.
pub struct ConnectionUserData {
    /// What happened and was not taken out yet, in order.
    pub events: VecDeque<ConnectionEvent>,
    /// The connection IDs that were handed to the peer (RFC 9000 Section 5.1.1).
    pub issued_cids: Vec<ConnectionId>,
    /// The connection IDs that the peer uses no more (RFC 9000 Section 5.1.2).
    pub retired_cids: Vec<ConnectionId>,
    /// The secret that Stateless Reset tokens are derived from, if there is one.
    pub stateless_reset_secret: Option<StatelessResetSecret>,
    /// Whether a client tried to send 0-RTT data.
    pub early_data_attempted: bool,
    /// The qlog output.
    pub qlog_data: Vec<u8>,
    /// The tokens of NEW_TOKEN frames (RFC 9000 Section 8.1.4), in order.
    pub new_tokens: VecDeque<Vec<u8>>,
    /// The sent and unacknowledged data of each stream.
    pub in_flight_stream_data: BTreeMap<StreamId, InFlightStreamData>,
}

/// What follows once the handshake is complete.
#[derive(Debug, Clone, Copy, PartialEq, Eq, Structural)]
pub enum HandshakeStep {
    /// Tell the engine that the 0-RTT data was rejected, before anything else.
    RejectEarlyData,
    /// Nothing.
    Done,
}

/// What follows once the handshake is complete, given whether 0-RTT data was sent, whether the server
/// accepted it, and whether the engine has been told that it did not.
pub open spec fn handshake_step(attempted: bool, accepted: bool, told: bool) -> HandshakeStep {
    if attempted && !accepted && !told {
        HandshakeStep::RejectEarlyData
    } else {
        HandshakeStep::Done
    }
}

/// The engine is told of a rejection once, before the handshake counts as complete, and only if 0-RTT
/// data was sent and not accepted.
pub proof fn lemma_rejection_comes_first(attempted: bool, accepted: bool)
    ensures
        handshake_step(attempted, accepted, false) == HandshakeStep::RejectEarlyData <==> attempted
            && !accepted,
        handshake_step(attempted, accepted, true) == HandshakeStep::Done,
{
}

/// A connection ID that is about to be handed to the peer.
pub struct NewConnectionId {
    /// Its bytes.
    pub cid: Vec<u8>,
    /// The secret that its Stateless Reset token is to be derived from, if it can be.
    pub secret: Option<StatelessResetSecret>,
}

impl ConnectionUserData {
    /// The sent and unacknowledged data of each stream.
    pub open spec fn in_flight(self) -> Map<StreamId, crate::inflight::InFlight> {
        self.in_flight_stream_data@.map_values(|e: InFlightStreamData| e@)
    }

    /// The data of one stream; empty before its first write.
    pub open spec fn stream(self, stream_id: StreamId) -> crate::inflight::InFlight {
        if self.in_flight().contains_key(stream_id) {
            self.in_flight()[stream_id]
        } else {
            crate::inflight::InFlight::empty()
        }
    }

    /// Where an acknowledgement of `datalen` bytes at `offset` ends.
    pub open spec fn ack_end(offset: u64, datalen: u64) -> nat {
        if offset + datalen <= u64::MAX {
            (offset + datalen) as nat
        } else {
            u64::MAX as nat
        }
    }

    /// Makes the state of a new connection.
    pub fn new() -> (r: ConnectionUserData)
        ensures
            r.events@ == Seq::<ConnectionEvent>::empty(),
            r.issued_cids@ == Seq::<ConnectionId>::empty(),
            r.retired_cids@ == Seq::<ConnectionId>::empty(),
            r.stateless_reset_secret is None,
            !r.early_data_attempted,
            r.qlog_data@ == Seq::<u8>::empty(),
            r.new_tokens@ == Seq::<Vec<u8>>::empty(),
            r.in_flight() == Map::<StreamId, crate::inflight::InFlight>::empty(),
    {
        let r: ConnectionUserData = ConnectionUserData {
            events: VecDeque::new(),
            issued_cids: Vec::new(),
            retired_cids: Vec::new(),
            stateless_reset_secret: None,
            early_data_attempted: false,
            qlog_data: Vec::new(),
            new_tokens: VecDeque::new(),
            in_flight_stream_data: BTreeMap::new(),
        };
        assert(r.in_flight() =~= Map::<StreamId, crate::inflight::InFlight>::empty());
        r
    }

    /// Releases data that the peer has acknowledged.
    ///
    /// A stream that holds no data is left alone.
    pub fn acked_stream_data(&mut self, stream_id: StreamId, offset: u64, datalen: u64)
        ensures
            *final(self) == (ConnectionUserData {
                in_flight_stream_data: final(self).in_flight_stream_data,
                ..*old(self)
            }),
            final(self).in_flight() == (if old(self).in_flight().contains_key(stream_id) {
                old(self).in_flight().insert(
                    stream_id,
                    old(self).in_flight()[stream_id].acked(
                        ConnectionUserData::ack_end(offset, datalen),
                    ),
                )
            } else {
                old(self).in_flight()
            }),
    {
        match self.in_flight_stream_data.remove(&stream_id) {
            Some(mut entry) => {
                entry.ack_until(offset.saturating_add(datalen));
                self.in_flight_stream_data.insert(stream_id, entry);
            },
            None => {},
        }
        proof {
            if old(self).in_flight().contains_key(stream_id) {
                assert(self.in_flight() =~= old(self).in_flight().insert(
                    stream_id,
                    old(self).in_flight()[stream_id].acked(
                        ConnectionUserData::ack_end(offset, datalen),
                    ),
                ));
            } else {
                assert(self.in_flight() =~= old(self).in_flight());
            }
        }
    }

    /// Releases the data of a stream that is closed.
    pub fn closed_stream(&mut self, stream_id: StreamId)
        ensures
            *final(self) == (ConnectionUserData {
                in_flight_stream_data: final(self).in_flight_stream_data,
                ..*old(self)
            }),
            final(self).in_flight() == old(self).in_flight().remove(stream_id),
    {
        self.in_flight_stream_data.remove(&stream_id);
        assert(self.in_flight() =~= old(self).in_flight().remove(stream_id));
    }

    /// Appends an event.
    fn push_event(&mut self, event: ConnectionEvent)
        ensures
            final(self).events@ == old(self).events@.push(event),
            *final(self) == (ConnectionUserData { events: final(self).events, ..*old(self) }),
    {
        self.events.push_back(event);
    }

    /// Takes in that the validation of a path has ended (RFC 9000 Section 8.2).
    ///
    /// A path that cannot be read is not reported.
    pub fn path_validation_callback(&mut self, path: Option<PathInfo>, success: bool)
        ensures
            final(self).events@ == (match path {
                Some(path) => old(self).events@.push(
                    ConnectionEvent::PathValidated { path, success },
                ),
                None => old(self).events@,
            }),
            *final(self) == (ConnectionUserData { events: final(self).events, ..*old(self) }),
    {
        match path {
            Some(path) => self.push_event(ConnectionEvent::PathValidated { path, success }),
            None => {},
        }
    }

    /// Takes in that the peer uses a connection ID no more (RFC 9000 Section 5.1.2).
    pub fn remove_connection_id_callback(&mut self, cid: &[u8])
        ensures
            cid_views(final(self).retired_cids@) == (if cid@.len() <= 20 {
                cid_views(old(self).retired_cids@).push(cid@)
            } else {
                cid_views(old(self).retired_cids@)
            }),
            *final(self) == (ConnectionUserData {
                retired_cids: final(self).retired_cids,
                ..*old(self)
            }),
    {
        match ConnectionId::new(cid) {
            Some(cid) => self.retired_cids.push(cid),
            None => {},
        }
        proof {
            if cid@.len() <= 20 {
                assert(cid_views(self.retired_cids@) =~= cid_views(old(self).retired_cids@).push(
                    cid@,
                ));
            }
        }
    }

    /// Makes a connection ID of `cidlen` random bytes that is to be handed to the peer
    /// (RFC 9000 Section 5.1.1).
    ///
    /// Random bytes can always be had, so it does not fail.
    pub fn new_connection_id(&self, cidlen: usize) -> (r: Result<NewConnectionId, i32>)
        ensures
            r matches Ok(new) && {
                &&& new.cid@.len() == cidlen
                &&& new.secret == (if cidlen <= 20 {
                    self.stateless_reset_secret
                } else {
                    None
                })
            },
    {
        match crate::rand::random_bytes(cidlen) {
            None => Err(NGTCP2_ERR_CALLBACK_FAILURE),
            Some(cid) => Ok(
                NewConnectionId {
                    cid,
                    secret: if cidlen <= 20 {
                        match &self.stateless_reset_secret {
                            Some(secret) => Some(secret.clone()),
                            None => None,
                        }
                    } else {
                        None
                    },
                },
            ),
        }
    }

    /// Hands a new connection ID to the peer, together with its Stateless Reset token, and records
    /// it.
    ///
    /// The token is the derived one if there is one. Otherwise it is random, and no Stateless Reset
    /// can be sent for it later. A connection ID that is too long gets a random token and is not
    /// recorded. Random bytes can always be had, so it does not fail.
    pub fn get_new_connection_id_callback(
        &mut self,
        new: NewConnectionId,
        derived: Option<StatelessResetToken>,
    ) -> (r: Result<(Vec<u8>, StatelessResetToken), i32>)
        ensures
            r matches Ok((cid, token)) && {
                &&& cid@ == new.cid@
                &&& token@.len() == 16
                &&& new.cid@.len() <= 20 ==> (derived matches Some(t) ==> token == t)
                &&& cid_views(final(self).issued_cids@) == (if new.cid@.len() <= 20 {
                    cid_views(old(self).issued_cids@).push(new.cid@)
                } else {
                    cid_views(old(self).issued_cids@)
                })
            },
            *final(self) == (ConnectionUserData {
                issued_cids: final(self).issued_cids,
                ..*old(self)
            }),
    {
        let issued: Option<ConnectionId> = ConnectionId::new(new.cid.as_slice());
        let usable: Option<StatelessResetToken> = match &issued {
            Some(_) => derived,
            None => None,
        };
        let token: StatelessResetToken = match usable {
            Some(token) => token,
            None => {
                let mut bytes: [u8; 16] = [0; 16];
                match aws_lc_rs::rand::fill(&mut bytes) {
                    Ok(()) => StatelessResetToken::from_bytes(bytes),
                    Err(_) => {
                        return Err(NGTCP2_ERR_CALLBACK_FAILURE);
                    },
                }
            },
        };
        match issued {
            Some(cid) => {
                self.issued_cids.push(cid);
                assert(cid_views(self.issued_cids@) =~= cid_views(old(self).issued_cids@).push(
                    new.cid@,
                ));
            },
            None => {},
        }
        proof {
            crate::reset::lemma_token_len(token);
        }
        Ok((new.cid, token))
    }

    /// Takes in that the handshake is complete (RFC 9001 Section 4.1.1).
    ///
    /// If 0-RTT data was sent and the server did not accept it, the engine is told so first, and
    /// reports the rejection. `told` says whether that has been done; then the handshake counts as
    /// complete.
    pub fn handshake_completed_callback(&mut self, accepted: bool, told: bool) -> (r: HandshakeStep)
        ensures
            r == handshake_step(old(self).early_data_attempted, accepted, told),
            final(self).events@ == (match r {
                HandshakeStep::RejectEarlyData => old(self).events@,
                HandshakeStep::Done => old(self).events@.push(ConnectionEvent::HandshakeCompleted),
            }),
            *final(self) == (ConnectionUserData { events: final(self).events, ..*old(self) }),
    {
        if self.early_data_attempted && !accepted && !told {
            return HandshakeStep::RejectEarlyData;
        }
        self.push_event(ConnectionEvent::HandshakeCompleted);
        HandshakeStep::Done
    }

    /// Takes in that 0-RTT data was rejected (RFC 9001 Section 4.6.2).
    pub fn tls_early_data_rejected_callback(&mut self)
        ensures
            final(self).events@ == old(self).events@.push(ConnectionEvent::EarlyDataRejected),
            *final(self) == (ConnectionUserData { events: final(self).events, ..*old(self) }),
    {
        self.push_event(ConnectionEvent::EarlyDataRejected);
    }

    /// Takes in that the handshake is confirmed (RFC 9001 Section 4.1.2).
    pub fn handshake_confirmed_callback(&mut self)
        ensures
            final(self).events@ == old(self).events@.push(ConnectionEvent::HandshakeConfirmed),
            *final(self) == (ConnectionUserData { events: final(self).events, ..*old(self) }),
    {
        self.push_event(ConnectionEvent::HandshakeConfirmed);
    }

    /// Takes in that the peer opened a stream (RFC 9000 Section 2.1).
    pub fn stream_open_callback(&mut self, stream_id: StreamId)
        ensures
            final(self).events@ == old(self).events@.push(
                ConnectionEvent::StreamOpened { stream_id },
            ),
            *final(self) == (ConnectionUserData { events: final(self).events, ..*old(self) }),
    {
        self.push_event(ConnectionEvent::StreamOpened { stream_id });
    }

    /// Takes in that a stream is closed (RFC 9000 Section 3.3) and releases its data.
    ///
    /// An error code counts only where it is set.
    pub fn stream_close_callback(
        &mut self,
        stream_id: StreamId,
        rx_set: bool,
        rx_app_error_code: u64,
        tx_set: bool,
        tx_app_error_code: u64,
    )
        ensures
            final(self).events@ == old(self).events@.push(
                ConnectionEvent::StreamClosed {
                    stream_id,
                    rx_app_error_code: if rx_set {
                        Some(rx_app_error_code)
                    } else {
                        None
                    },
                    tx_app_error_code: if tx_set {
                        Some(tx_app_error_code)
                    } else {
                        None
                    },
                },
            ),
            final(self).in_flight() == old(self).in_flight().remove(stream_id),
            *final(self) == (ConnectionUserData {
                events: final(self).events,
                in_flight_stream_data: final(self).in_flight_stream_data,
                ..*old(self)
            }),
    {
        self.closed_stream(stream_id);
        let rx: Option<u64> = if rx_set {
            Some(rx_app_error_code)
        } else {
            None
        };
        let tx: Option<u64> = if tx_set {
            Some(tx_app_error_code)
        } else {
            None
        };
        self.push_event(
            ConnectionEvent::StreamClosed {
                stream_id,
                rx_app_error_code: rx,
                tx_app_error_code: tx,
            },
        );
    }

    /// Takes in a piece of qlog output.
    pub fn qlog_write_callback(&mut self, data: &[u8])
        ensures
            final(self).qlog_data@ == old(self).qlog_data@ + data@,
            *final(self) == (ConnectionUserData { qlog_data: final(self).qlog_data, ..*old(self) }),
    {
        self.qlog_data.extend_from_slice(data);
        assert(self.qlog_data@ =~= old(self).qlog_data@ + data@);
    }

    /// Takes in the token of a NEW_TOKEN frame (RFC 9000 Section 8.1.4).
    pub fn recv_new_token_callback(&mut self, token: Vec<u8>)
        ensures
            final(self).new_tokens@ == old(self).new_tokens@.push(token),
            *final(self) == (ConnectionUserData {
                new_tokens: final(self).new_tokens,
                ..*old(self)
            }),
    {
        self.new_tokens.push_back(token);
    }

    /// Takes in that the peer reset a stream (RFC 9000 Section 19.4).
    pub fn stream_reset_callback(
        &mut self,
        stream_id: StreamId,
        final_size: u64,
        app_error_code: u64,
    )
        ensures
            final(self).events@ == old(self).events@.push(
                ConnectionEvent::StreamReset { stream_id, final_size, app_error_code },
            ),
            *final(self) == (ConnectionUserData { events: final(self).events, ..*old(self) }),
    {
        self.push_event(ConnectionEvent::StreamReset { stream_id, final_size, app_error_code });
    }

    /// Takes in that the peer does not want to receive a stream any more
    /// (RFC 9000 Section 19.5).
    pub fn recv_stop_sending_callback(&mut self, stream_id: StreamId, app_error_code: u64)
        ensures
            final(self).events@ == old(self).events@.push(
                ConnectionEvent::StreamStopSending { stream_id, app_error_code },
            ),
            *final(self) == (ConnectionUserData { events: final(self).events, ..*old(self) }),
    {
        self.push_event(ConnectionEvent::StreamStopSending { stream_id, app_error_code });
    }

    /// Takes in stream data (RFC 9000 Section 19.8).
    pub fn recv_stream_data_callback(&mut self, stream_id: StreamId, data: Vec<u8>, fin: bool)
        ensures
            final(self).events@ == old(self).events@.push(
                ConnectionEvent::StreamData { stream_id, data, fin },
            ),
            *final(self) == (ConnectionUserData { events: final(self).events, ..*old(self) }),
    {
        self.push_event(ConnectionEvent::StreamData { stream_id, data, fin });
    }

    /// Takes in that more may be sent on a stream (RFC 9000 Section 19.10).
    pub fn extend_max_stream_data_callback(&mut self, stream_id: StreamId, max_data: u64)
        ensures
            final(self).events@ == old(self).events@.push(
                ConnectionEvent::StreamMaxData { stream_id, max_data },
            ),
            *final(self) == (ConnectionUserData { events: final(self).events, ..*old(self) }),
    {
        self.push_event(ConnectionEvent::StreamMaxData { stream_id, max_data });
    }

    /// Takes in that more bidirectional streams may be opened (RFC 9000 Section 19.11).
    pub fn extend_max_local_streams_bidi_callback(&mut self, max_streams: u64)
        ensures
            final(self).events@ == old(self).events@.push(
                ConnectionEvent::MaxStreamsBidi { max_streams },
            ),
            *final(self) == (ConnectionUserData { events: final(self).events, ..*old(self) }),
    {
        self.push_event(ConnectionEvent::MaxStreamsBidi { max_streams });
    }

    /// Takes in that more unidirectional streams may be opened (RFC 9000 Section 19.11).
    pub fn extend_max_local_streams_uni_callback(&mut self, max_streams: u64)
        ensures
            final(self).events@ == old(self).events@.push(
                ConnectionEvent::MaxStreamsUni { max_streams },
            ),
            *final(self) == (ConnectionUserData { events: final(self).events, ..*old(self) }),
    {
        self.push_event(ConnectionEvent::MaxStreamsUni { max_streams });
    }

    /// Takes in a datagram (RFC 9221).
    pub fn recv_datagram_callback(&mut self, data: Vec<u8>)
        ensures
            final(self).events@ == old(self).events@.push(ConnectionEvent::Datagram { data }),
            *final(self) == (ConnectionUserData { events: final(self).events, ..*old(self) }),
    {
        self.push_event(ConnectionEvent::Datagram { data });
    }

    /// Takes in that the peer has lost the state of the connection (RFC 9000 Section 10.3).
    ///
    /// The token is not passed on: whoever knows it can forge a Stateless Reset.
    pub fn recv_stateless_reset_callback(&mut self)
        ensures
            final(self).events@ == old(self).events@.push(ConnectionEvent::StatelessResetReceived),
            *final(self) == (ConnectionUserData { events: final(self).events, ..*old(self) }),
    {
        self.push_event(ConnectionEvent::StatelessResetReceived);
    }
}

/// A QUIC connection.
pub struct Connection {
    /// What the callbacks change.
    pub user_data: ConnectionUserData,
    /// The TLS session.
    pub tls_session: TlsSession,
}

/// A write to a stream of which the engine has not reported yet.
#[derive(Debug, Clone, Copy, PartialEq, Eq, Structural)]
pub struct StreamWrite {
    /// The stream.
    pub stream_id: StreamId,
    /// Where the offered data starts in the data of the stream.
    pub start: usize,
    /// Where the offered data ends in the data of the stream.
    pub end: usize,
    /// The flags for the engine.
    pub flags: u32,
}

/// What the engine returned from a write.
pub struct WriteOutcome {
    /// The length of the packet, or an error code.
    pub rv: isize,
    /// The engine's message for an error code.
    pub message: Option<String>,
    /// The local address that the packet is to be sent from.
    pub local: Option<RawSockaddr>,
    /// The remote address that the packet is to be sent to.
    pub remote: Option<RawSockaddr>,
    /// The ECN mark of the packet.
    pub ecn: u8,
}

impl WriteOutcome {
    /// The path of the packet, if one was written.
    pub open spec fn path(self) -> Option<PathInfo> {
        if self.rv > 0 {
            crate::addr::path_of(self.local, self.remote)
        } else {
            None
        }
    }

    /// Returns the path of the packet, if one was written.
    fn packet_path(&self) -> (r: Option<PathInfo>)
        ensures
            r == self.path(),
    {
        if self.rv > 0 {
            path_info_from_raw(self.local, self.remote)
        } else {
            None
        }
    }
}

/// How much of the data went out: `datalen` if it is not negative.
pub open spec fn data_written(datalen: isize) -> Option<usize> {
    if datalen >= 0 {
        Some(datalen as usize)
    } else {
        None
    }
}

/// The number of bytes that went out.
pub open spec fn bytes_written(datalen: isize) -> nat {
    if datalen >= 0 {
        datalen as nat
    } else {
        0
    }
}

/// What is returned from a write to a stream.
///
/// An error that concerns the stream alone says so; if the engine waits for more data, no packet
/// was written and that is no error.
pub open spec fn stream_result(
    r: Result<(usize, Option<usize>, Option<PathInfo>, PacketInfo), Error>,
    stream_id: StreamId,
    datalen: isize,
    outcome: WriteOutcome,
) -> bool {
    if outcome.rv == NGTCP2_ERR_WRITE_MORE {
        r matches Ok((len, written, path, info)) && len == 0 && written == data_written(datalen)
            && path is None && info.ecn == outcome.ecn
    } else if outcome.rv == NGTCP2_ERR_STREAM_DATA_BLOCKED {
        r matches Err(e) && e == Error::StreamDataBlocked(stream_id)
    } else if outcome.rv == NGTCP2_ERR_STREAM_SHUT_WR {
        r matches Err(e) && e == Error::StreamShutWr(stream_id)
    } else if outcome.rv < 0 {
        r matches Err(e) && e.reports(outcome.rv as i32, outcome.message)
    } else {
        r matches Ok((len, written, path, info)) && len == outcome.rv && written == data_written(
            datalen,
        ) && path == outcome.path() && info.ecn == outcome.ecn
    }
}

impl Connection {
    /// Everything but the data of the streams is as in `before`.
    pub open spec fn same_but_streams(self, before: Connection) -> bool {
        self == (Connection {
            user_data: ConnectionUserData {
                in_flight_stream_data: self.user_data.in_flight_stream_data,
                ..before.user_data
            },
            ..before
        })
    }

    /// Takes out the connection IDs that the peer uses no more (RFC 9000 Section 5.1.2).
    pub fn poll_retired_cids(&mut self) -> (r: Vec<ConnectionId>)
        ensures
            r@ == old(self).user_data.retired_cids@,
            final(self).user_data.retired_cids@ == Seq::<ConnectionId>::empty(),
            *final(self) == (Connection {
                user_data: ConnectionUserData {
                    retired_cids: final(self).user_data.retired_cids,
                    ..old(self).user_data
                },
                ..*old(self)
            }),
    {
        let mut taken: Vec<ConnectionId> = Vec::new();
        std::mem::swap(&mut taken, &mut self.user_data.retired_cids);
        taken
    }

    /// Takes out the connection IDs that were handed to the peer (RFC 9000 Section 5.1.1).
    pub fn poll_issued_cids(&mut self) -> (r: Vec<ConnectionId>)
        ensures
            r@ == old(self).user_data.issued_cids@,
            final(self).user_data.issued_cids@ == Seq::<ConnectionId>::empty(),
            *final(self) == (Connection {
                user_data: ConnectionUserData {
                    issued_cids: final(self).user_data.issued_cids,
                    ..old(self).user_data
                },
                ..*old(self)
            }),
    {
        let mut taken: Vec<ConnectionId> = Vec::new();
        std::mem::swap(&mut taken, &mut self.user_data.issued_cids);
        taken
    }

    /// Takes out the qlog output, or `None` if there is none.
    pub fn poll_qlog_data(&mut self) -> (r: Option<Vec<u8>>)
        ensures
            (r is None) == (old(self).user_data.qlog_data@.len() == 0),
            r matches Some(data) ==> data@ == old(self).user_data.qlog_data@,
            final(self).user_data.qlog_data@ == Seq::<u8>::empty(),
            *final(self) == (Connection {
                user_data: ConnectionUserData {
                    qlog_data: final(self).user_data.qlog_data,
                    ..old(self).user_data
                },
                ..*old(self)
            }),
    {
        if self.user_data.qlog_data.len() == 0 {
            assert(self.user_data.qlog_data@ =~= Seq::<u8>::empty());
            return None;
        }
        let mut taken: Vec<u8> = Vec::new();
        std::mem::swap(&mut taken, &mut self.user_data.qlog_data);
        Some(taken)
    }

    /// Takes out the token that came first in a NEW_TOKEN frame (RFC 9000 Section 8.1.4).
    pub fn take_new_token(&mut self) -> (r: Option<Vec<u8>>)
        ensures
            match r {
                Some(token) => {
                    &&& old(self).user_data.new_tokens@.len() > 0
                    &&& token == old(self).user_data.new_tokens@[0]
                    &&& final(self).user_data.new_tokens@ == old(
                        self,
                    ).user_data.new_tokens@.drop_first()
                },
                None => {
                    &&& old(self).user_data.new_tokens@.len() == 0
                    &&& final(self).user_data.new_tokens@ == old(self).user_data.new_tokens@
                },
            },
            *final(self) == (Connection {
                user_data: ConnectionUserData {
                    new_tokens: final(self).user_data.new_tokens,
                    ..old(self).user_data
                },
                ..*old(self)
            }),
    {
        self.user_data.new_tokens.pop_front()
    }

    /// Takes out the event that happened first.
    pub fn poll_event(&mut self) -> (r: Option<ConnectionEvent>)
        ensures
            match r {
                Some(event) => {
                    &&& old(self).user_data.events@.len() > 0
                    &&& event == old(self).user_data.events@[0]
                    &&& final(self).user_data.events@ == old(self).user_data.events@.drop_first()
                },
                None => {
                    &&& old(self).user_data.events@.len() == 0
                    &&& final(self).user_data.events@ == old(self).user_data.events@
                },
            },
            *final(self) == (Connection {
                user_data: ConnectionUserData {
                    events: final(self).user_data.events,
                    ..old(self).user_data
                },
                ..*old(self)
            }),
    {
        self.user_data.events.pop_front()
    }

    /// Returns whether there is an event.
    pub fn has_event(&self) -> (r: bool)
        ensures
            r == (self.user_data.events@.len() > 0),
    {
        self.user_data.events.len() > 0
    }

    /// Whether `len` more bytes of a stream can be held: an index has to reach all of them.
    pub open spec fn has_room(self, stream_id: StreamId, len: nat) -> bool {
        self.user_data.stream(stream_id).data().len() + len <= usize::MAX
    }

    /// Returns whether `len` more bytes of a stream can be held.
    pub fn can_hold(&self, stream_id: StreamId, len: usize) -> (r: bool)
        ensures
            r == self.has_room(stream_id, len as nat),
    {
        match self.user_data.in_flight_stream_data.get(&stream_id) {
            Some(entry) => entry.held() <= usize::MAX - len,
            None => true,
        }
    }

    /// Starts a write to a stream that completes one packet.
    pub fn write_stream(&mut self, stream_id: StreamId, data: &[u8], fin: bool) -> (r: StreamWrite)
        requires
            old(self).has_room(stream_id, data@.len()),
        ensures
            final(self).same_but_streams(*old(self)),
            final(self).user_data.in_flight() == old(self).user_data.in_flight().insert(
                stream_id,
                old(self).user_data.stream(stream_id).appended(data@),
            ),
            r.stream_id == stream_id,
            r.start == old(self).user_data.stream(stream_id).data().len(),
            r.end == r.start + data@.len(),
            r.flags == (if fin {
                0 | WRITE_STREAM_FLAG_FIN
            } else {
                0
            }),
    {
        self.write_stream_with_flags(stream_id, data, fin, 0)
    }

    /// Starts a write to a stream.
    ///
    /// The data is kept until it is acknowledged, since the engine refers to it. Only what is added
    /// now is offered to the engine: what is there already has been written, and would be written
    /// twice. What the engine does not take is dropped when the write ends, and the caller offers it
    /// again.
    pub fn write_stream_with_flags(
        &mut self,
        stream_id: StreamId,
        data: &[u8],
        fin: bool,
        flags: u32,
    ) -> (r: StreamWrite)
        requires
            old(self).has_room(stream_id, data@.len()),
        ensures
            final(self).same_but_streams(*old(self)),
            final(self).user_data.in_flight() == old(self).user_data.in_flight().insert(
                stream_id,
                old(self).user_data.stream(stream_id).appended(data@),
            ),
            r.stream_id == stream_id,
            r.start == old(self).user_data.stream(stream_id).data().len(),
            r.end == r.start + data@.len(),
            r.flags == (if fin {
                flags | WRITE_STREAM_FLAG_FIN
            } else {
                flags
            }),
    {
        let mut entry: InFlightStreamData = match self.user_data.in_flight_stream_data.remove(
            &stream_id,
        ) {
            Some(entry) => entry,
            None => InFlightStreamData::new(),
        };
        let appended: std::ops::Range<usize> = entry.append(data);
        self.user_data.in_flight_stream_data.insert(stream_id, entry);
        assert(self.user_data.in_flight() =~= old(self).user_data.in_flight().insert(
            stream_id,
            old(self).user_data.stream(stream_id).appended(data@),
        ));
        StreamWrite {
            stream_id,
            start: appended.start,
            end: appended.end,
            flags: if fin {
                flags | WRITE_STREAM_FLAG_FIN
            } else {
                flags
            },
        }
    }

    /// Returns the data that a write offers to the engine.
    pub fn offered(&self, write: &StreamWrite) -> (r: &[u8])
        ensures
            r@ == self.user_data.stream(write.stream_id).offered(
                write.start as nat,
                write.end as nat,
            ),
    {
        match self.user_data.in_flight_stream_data.get(&write.stream_id) {
            Some(entry) => entry.offered(write.start, write.end),
            None => &[],
        }
    }

    /// Ends a write to a stream, given what the engine returned.
    ///
    /// `datalen` is the number of bytes that went out, or negative if none did. Returns the length
    /// of the packet, the number of bytes that went out, the path to send the packet on and its ECN
    /// mark.
    pub fn stream_written(
        &mut self,
        write: StreamWrite,
        datalen: isize,
        outcome: WriteOutcome,
    ) -> (r: Result<(usize, Option<usize>, Option<PathInfo>, PacketInfo), Error>)
        ensures
            final(self).same_but_streams(*old(self)),
            final(self).user_data.in_flight() == (if old(self).user_data.in_flight().contains_key(
                write.stream_id,
            ) {
                let entry = old(self).user_data.in_flight()[write.stream_id];
                old(self).user_data.in_flight().insert(
                    write.stream_id,
                    entry.truncated(entry.before(write.start as nat) + bytes_written(datalen)),
                )
            } else {
                old(self).user_data.in_flight()
            }),
            stream_result(r, write.stream_id, datalen, outcome),
            r matches Ok((_, written, _, _)) ==> (if datalen < 0 {
                written is None
            } else {
                written matches Some(n) && n == datalen
            }),
    {
        let data_written: Option<usize> = if datalen >= 0 {
            Some(datalen as usize)
        } else {
            None
        };
        match self.user_data.in_flight_stream_data.remove(&write.stream_id) {
            Some(mut entry) => {
                let written: usize = match data_written {
                    Some(n) => n,
                    None => 0,
                };
                entry.end_write(write.start, written);
                self.user_data.in_flight_stream_data.insert(write.stream_id, entry);
            },
            None => {},
        }
        proof {
            let before = old(self).user_data.in_flight();
            if before.contains_key(write.stream_id) {
                let entry = before[write.stream_id];
                assert(self.user_data.in_flight() =~= before.insert(
                    write.stream_id,
                    entry.truncated(entry.before(write.start as nat) + bytes_written(datalen)),
                ));
            } else {
                assert(self.user_data.in_flight() =~= before);
            }
        }
        if outcome.rv == NGTCP2_ERR_WRITE_MORE as isize {
            return Ok((0, data_written, None, PacketInfo { ecn: outcome.ecn }));
        }
        if outcome.rv == NGTCP2_ERR_STREAM_DATA_BLOCKED as isize {
            return Err(Error::StreamDataBlocked(write.stream_id));
        }
        if outcome.rv == NGTCP2_ERR_STREAM_SHUT_WR as isize {
            return Err(Error::StreamShutWr(write.stream_id));
        }
        if outcome.rv < 0 {
            return Err(Error::from_ngtcp2(outcome.rv as i32, outcome.message));
        }
        let path: Option<PathInfo> = outcome.packet_path();
        Ok((outcome.rv as usize, data_written, path, PacketInfo { ecn: outcome.ecn }))
    }

    /// Takes in what the engine returned from writing a packet.
    ///
    /// Returns the length of the packet, its ECN mark and the path to send it on. While a path is
    /// validated, a packet may belong on another one (RFC 9000 Section 9.3).
    pub fn write_pkt(outcome: WriteOutcome) -> (r: Result<
        (usize, PacketInfo, Option<PathInfo>),
        Error,
    >)
        ensures
            outcome.rv < 0 ==> (r matches Err(e) && e.reports(outcome.rv as i32, outcome.message)),
            outcome.rv >= 0 ==> (r matches Ok((len, info, path)) && len == outcome.rv && info.ecn
                == outcome.ecn && path == outcome.path()),
    {
        if outcome.rv < 0 {
            return Err(Error::from_ngtcp2(outcome.rv as i32, outcome.message));
        }
        let path: Option<PathInfo> = outcome.packet_path();
        Ok((outcome.rv as usize, PacketInfo { ecn: outcome.ecn }, path))
    }

    /// Whether a peer with these parameters takes datagrams (RFC 9221 Section 3).
    pub open spec fn takes_datagrams(params: Option<RemoteTransportParams>) -> bool {
        params matches Some(p) && p.max_datagram_frame_size > 0
    }

    /// Returns whether the peer accepts RESET_STREAM_AT; false before its parameters are known.
    pub fn supports_reset_stream_at(params: &Option<RemoteTransportParams>) -> (r: bool)
        ensures
            r == (*params matches Some(p) && p.reset_stream_at),
    {
        match params {
            Some(p) => p.reset_stream_at,
            None => false,
        }
    }

    /// Returns whether the peer takes datagrams (RFC 9221 Section 3); false before its parameters
    /// are known.
    pub fn can_send_datagram(params: &Option<RemoteTransportParams>) -> (r: bool)
        ensures
            r == Connection::takes_datagrams(*params),
    {
        match params {
            Some(p) => p.max_datagram_frame_size > 0,
            None => false,
        }
    }

    /// Checks that a datagram can be written.
    pub fn check_datagram(params: &Option<RemoteTransportParams>) -> (r: Result<(), Error>)
        ensures
            Connection::takes_datagrams(*params) ==> r is Ok,
            !Connection::takes_datagrams(*params) ==> (r matches Err(Error::Ngtcp2(m, code)) && code
                == NGTCP2_ERR_INVALID_STATE && m@
                == "ERR_INVALID_STATE: remote peer does not support DATAGRAM"@),
    {
        if !Connection::can_send_datagram(params) {
            return Err(
                Error::Ngtcp2(
                    "ERR_INVALID_STATE: remote peer does not support DATAGRAM".to_owned(),
                    NGTCP2_ERR_INVALID_STATE,
                ),
            );
        }
        Ok(())
    }

    /// Takes in what the engine returned from writing a datagram (RFC 9221).
    ///
    /// Returns the length of the packet, whether the datagram went into it, the path to send it on
    /// and its ECN mark. If the peer takes no datagrams, nothing has been written.
    pub fn write_datagram(
        params: &Option<RemoteTransportParams>,
        accepted: i32,
        outcome: WriteOutcome,
    ) -> (r: Result<(usize, bool, Option<PathInfo>, PacketInfo), Error>)
        ensures
            !Connection::takes_datagrams(*params) ==> (r matches Err(Error::Ngtcp2(m, code)) && code
                == NGTCP2_ERR_INVALID_STATE && m@
                == "ERR_INVALID_STATE: remote peer does not support DATAGRAM"@),
            Connection::takes_datagrams(*params) && outcome.rv < 0 ==> (r matches Err(e)
                && e.reports(outcome.rv as i32, outcome.message)),
            Connection::takes_datagrams(*params) && outcome.rv >= 0 ==> (r matches Ok(
                (len, taken, path, info),
            ) && len == outcome.rv && taken == (accepted != 0) && path == outcome.path() && info.ecn
                == outcome.ecn),
    {
        match Connection::check_datagram(params) {
            Ok(()) => {},
            Err(e) => {
                return Err(e);
            },
        }
        if outcome.rv < 0 {
            return Err(Error::from_ngtcp2(outcome.rv as i32, outcome.message));
        }
        let path: Option<PathInfo> = outcome.packet_path();
        Ok((outcome.rv as usize, accepted != 0, path, PacketInfo { ecn: outcome.ecn }))
    }

    /// Checks that the keys can be updated (RFC 9001 Section 6): the handshake is complete and the
    /// connection is not about to end.
    pub fn initiate_key_update(
        handshake_completed: bool,
        in_closing_period: bool,
        in_draining_period: bool,
    ) -> (r: Result<(), Error>)
        ensures
            handshake_completed && !in_closing_period && !in_draining_period ==> r is Ok,
            !(handshake_completed && !in_closing_period && !in_draining_period) ==> (r matches Err(e)
                && e.is_invalid_argument(
                "key update requires a connection in the post-handshake state"@,
            )),
    {
        if !handshake_completed || in_closing_period || in_draining_period {
            return Err(
                Error::invalid_argument(
                    "key update requires a connection in the post-handshake state",
                ),
            );
        }
        Ok(())
    }

    /// Takes out the TLS session of a ticket that has arrived, for a later connection.
    ///
    /// Before the handshake is complete the parameters of the server are not known, and nothing is
    /// taken out.
    pub fn take_session(&mut self, handshake_completed: bool) -> (r: Option<Vec<u8>>)
        ensures
            r == (match old(self).tls_session.ticket_slot {
                Some(slot) if handshake_completed => slot.ticket,
                _ => None,
            }),
            final(self).user_data == old(self).user_data,
            !handshake_completed ==> *final(self) == *old(self),
            handshake_completed ==> {
                &&& final(self).tls_session.is_server == old(self).tls_session.is_server
                &&& final(self).tls_session.accept_early_data == old(
                    self,
                ).tls_session.accept_early_data
                &&& final(self).tls_session.ticket_slot is Some <==> old(
                    self,
                ).tls_session.ticket_slot is Some
                &&& final(self).tls_session.ticket_slot matches Some(slot) ==> slot.ticket is None
            },
    {
        if !handshake_completed {
            return None;
        }
        self.tls_session.take_session_ticket()
    }

    /// Takes the encoded transport parameters that the engine wrote to the start of `buf`.
    ///
    /// `rv` is their length, or an error code.
    pub fn encode_0rtt_transport_params(rv: isize, buf: &[u8], message: Option<String>) -> (r: Result<
        Vec<u8>,
        Error,
    >)
        requires
            rv <= buf@.len(),
        ensures
            rv < 0 ==> (r matches Err(e) && e.reports(rv as i32, message)),
            rv >= 0 ==> (r matches Ok(params) && params@ == buf@.take(rv as int)),
    {
        match check_written(rv, message) {
            Err(e) => Err(e),
            Ok(len) => {
                let params: Vec<u8> = slice_to_vec(slice_subrange(buf, 0, len));
                assert(params@ =~= buf@.take(rv as int));
                Ok(params)
            },
        }
    }

    /// Joins a TLS session and the encoded transport parameters to a ticket.
    ///
    /// Without a session there is no ticket.
    pub fn take_session_ticket(
        session: Option<Vec<u8>>,
        rv: isize,
        buf: &[u8],
        message: Option<String>,
    ) -> (r: Result<Option<SessionTicket>, Error>)
        requires
            rv <= buf@.len(),
        ensures
            match session {
                None => r matches Ok(ticket) && ticket is None,
                Some(session) => if rv < 0 {
                    r matches Err(e) && e.reports(rv as i32, message)
                } else {
                    r matches Ok(Some(ticket)) && ticket@ == (session@, buf@.take(rv as int))
                },
            },
    {
        match session {
            None => Ok(None),
            Some(session) => match Connection::encode_0rtt_transport_params(rv, buf, message) {
                Err(e) => Err(e),
                Ok(params) => Ok(Some(SessionTicket::new(session, params))),
            },
        }
    }

    /// Returns why the connection ended, given what the engine keeps about it.
    ///
    /// The reason is empty if the peer gave none or the connection has not ended.
    pub fn get_connection_error(info: Option<CloseInfo>) -> (r: ConnectionError)
        ensures
            match info {
                None => {
                    &&& r.error_code == 0
                    &&& r.reason@ == Seq::<char>::empty()
                    &&& !r.is_application
                    &&& !r.has_error
                },
                Some(info) => {
                    &&& r.error_code == info.error_code
                    &&& r.reason@ == (match info.reason {
                        Some(bytes) if bytes@.len() > 0 => utf8_lossy(bytes@),
                        _ => Seq::empty(),
                    })
                    &&& r.is_application == (info.kind == CloseKind::Application)
                    &&& r.has_error == (info.kind != CloseKind::IdleClose)
                },
            },
    {
        match info {
            None => ConnectionError {
                error_code: 0,
                reason: String::new(),
                is_application: false,
                has_error: false,
            },
            Some(info) => {
                let reason: String = match info.reason {
                    Some(bytes) => if bytes.len() > 0 {
                        decode_lossy(bytes.as_slice())
                    } else {
                        String::new()
                    },
                    None => String::new(),
                };
                ConnectionError {
                    error_code: info.error_code,
                    reason,
                    is_application: info.kind == CloseKind::Application,
                    has_error: info.kind != CloseKind::IdleClose,
                }
            },
        }
    }
}

/// A write offers its data to the engine, and leaves exactly the bytes that went out with the
/// stream, whatever the engine returned, and other streams as they were.
pub proof fn lemma_stream_write(
    before: Map<StreamId, crate::inflight::InFlight>,
    write: StreamWrite,
    sent: Seq<u8>,
    data: Seq<u8>,
    datalen: isize,
)
    requires
        ({
            let entry = if before.contains_key(write.stream_id) {
                before[write.stream_id]
            } else {
                crate::inflight::InFlight::empty()
            };
            &&& entry.retains(sent)
            &&& write.start == entry.data().len()
            &&& write.end == entry.data().len() + data.len()
        }),
        datalen <= data.len(),
    ensures
        ({
            let entry = if before.contains_key(write.stream_id) {
                before[write.stream_id]
            } else {
                crate::inflight::InFlight::empty()
            };
            let started = before.insert(write.stream_id, entry.appended(data));
            let held = started[write.stream_id];
            let ended = started.insert(
                write.stream_id,
                held.truncated(held.before(write.start as nat) + bytes_written(datalen)),
            );
            let count = if datalen < 0 {
                0
            } else {
                datalen as int
            };
            &&& held.offered(write.start as nat, write.end as nat) == data
            &&& ended[write.stream_id] == entry.wrote(data, count as nat)
            &&& ended[write.stream_id].retains(sent + data.take(count))
            &&& ended[write.stream_id].unacked() == entry.unacked() + data.take(count)
            &&& ended[write.stream_id].offset == entry.offset
            &&& forall|id: StreamId|
                id != write.stream_id ==> (#[trigger] ended.contains_key(id)
                    == before.contains_key(id)) && (before.contains_key(id) ==> ended[id]
                    == before[id])
        }),
{
    let entry = if before.contains_key(write.stream_id) {
        before[write.stream_id]
    } else {
        crate::inflight::InFlight::empty()
    };
    crate::inflight::lemma_write_retains(entry, sent, data, bytes_written(datalen));
    crate::inflight::lemma_offered_is_what_was_added(entry, data);
}

/// What a write reports is what happened: the number of bytes is the number by which the data of the
/// stream has grown, and the length is that of the packet that was written.
///
/// Nothing is reported of bytes if the engine says that none went out. A packet that waits for more
/// data (-230) has no length yet. A stream that is blocked (-208) or shut down (-219) is named, and any
/// other negative result is the engine's error.
pub proof fn lemma_write_reports_growth(
    entry: crate::inflight::InFlight,
    stream_id: StreamId,
    sent: Seq<u8>,
    data: Seq<u8>,
    datalen: isize,
    outcome: WriteOutcome,
    r: Result<(usize, Option<usize>, Option<PathInfo>, PacketInfo), Error>,
)
    requires
        entry.retains(sent),
        datalen <= data.len(),
        stream_result(r, stream_id, datalen, outcome),
    ensures
        ({
            let held = entry.appended(data);
            let ended = held.truncated(held.before(entry.data().len()) + bytes_written(datalen));
            match r {
                Ok((len, written, path, info)) => {
                    &&& outcome.rv >= 0 || outcome.rv == -230
                    &&& len == (if outcome.rv < 0 {
                        0
                    } else {
                        outcome.rv as int
                    })
                    &&& match written {
                        Some(n) => datalen >= 0 && n == datalen && n == ended.unacked().len()
                            - entry.unacked().len(),
                        None => datalen < 0 && ended.unacked() == entry.unacked(),
                    }
                    &&& path == (if outcome.rv > 0 {
                        crate::addr::path_of(outcome.local, outcome.remote)
                    } else {
                        None
                    })
                    &&& info.ecn == outcome.ecn
                },
                Err(e) => {
                    &&& outcome.rv < 0 && outcome.rv != -230
                    &&& e == Error::StreamDataBlocked(stream_id) <==> outcome.rv == -208
                    &&& e == Error::StreamShutWr(stream_id) <==> outcome.rv == -219
                    &&& e is Ngtcp2 <==> outcome.rv != -208 && outcome.rv != -219
                },
            }
        }),
{
    let count = bytes_written(datalen);
    crate::inflight::lemma_write_retains(entry, sent, data, count);
    assert(entry.appended(data).truncated(
        entry.appended(data).before(entry.data().len()) + count,
    ) == entry.wrote(data, count));
    if datalen < 0 {
        assert(entry.unacked() + data.take(0) =~= entry.unacked());
    }
}

/// An acknowledgement releases exactly the bytes before its end, and only those of its stream.
///
/// `sent` are the bytes that the stream has carried, `acked` is how many of them were acknowledged
/// before.
pub proof fn lemma_acknowledgement_releases(
    before: Map<StreamId, crate::inflight::InFlight>,
    stream_id: StreamId,
    sent: Seq<u8>,
    acked: nat,
    offset: u64,
    datalen: u64,
)
    requires
        before.contains_key(stream_id),
        before[stream_id].retains(sent),
        before[stream_id].offset == acked,
        offset + datalen <= sent.len(),
        sent.len() <= u64::MAX,
    ensures
        ({
            let after = before.insert(
                stream_id,
                before[stream_id].acked(ConnectionUserData::ack_end(offset, datalen)),
            );
            let now = if offset + datalen > acked {
                offset + datalen
            } else {
                acked as int
            };
            &&& after[stream_id].unacked() == sent.skip(now)
            &&& after[stream_id].offset == now
            &&& forall|id: StreamId|
                id != stream_id ==> (#[trigger] after.contains_key(id) == before.contains_key(id))
                    && (before.contains_key(id) ==> after[id] == before[id])
        }),
{
    crate::inflight::lemma_ack_retains(
        before[stream_id],
        sent,
        ConnectionUserData::ack_end(offset, datalen),
    );
}

/// An acknowledgement ends behind its last byte, and at the largest position if that is out of range.
pub proof fn lemma_ack_end(offset: u64, datalen: u64)
    ensures
        offset + datalen < 0x1_0000_0000_0000_0000 ==> ConnectionUserData::ack_end(offset, datalen)
            == offset + datalen,
        offset + datalen >= 0x1_0000_0000_0000_0000 ==> ConnectionUserData::ack_end(offset, datalen)
            == 0xffff_ffff_ffff_ffff,
{
}

/// A peer takes datagrams exactly if it has announced a largest size for them that is not zero
/// (RFC 9221 Section 3).
pub proof fn lemma_datagrams_are_announced(params: RemoteTransportParams)
    ensures
        !Connection::takes_datagrams(None),
        Connection::takes_datagrams(Some(params)) <==> params.max_datagram_frame_size != 0,
{
}

/// The flag that ends a stream is the second bit of the flags, the one that waits for more data the
/// first, and setting one leaves the others as they are.
pub proof fn lemma_write_flags(flags: u32)
    ensures
        WRITE_STREAM_FLAG_MORE == 1,
        WRITE_STREAM_FLAG_FIN == 2,
        (flags | WRITE_STREAM_FLAG_FIN) & 2 == 2,
        (flags | WRITE_STREAM_FLAG_FIN) & !2u32 == flags & !2u32,
{
    assert((flags | 2) & 2 == 2) by (bit_vector);
    assert((flags | 2) & !2u32 == flags & !2u32) by (bit_vector);
}

/// The path of a packet is known exactly if a packet was written and both addresses can be read.
pub proof fn lemma_path_of_packet(outcome: WriteOutcome)
    ensures
        outcome.path() is Some <==> outcome.rv > 0 && (outcome.local matches Some(local)
            && local.address() is Some) && (outcome.remote matches Some(remote) && remote.address()
            is Some),
        outcome.path() matches Some(path) ==> (outcome.local matches Some(local)
            && local.address() == Some(path.local)) && (outcome.remote matches Some(remote)
            && remote.address() == Some(path.remote)),
{
}

/// Events are taken out in the order in which they happened: what is queued first comes out before
/// what is queued later.
pub proof fn lemma_events_in_order(
    queue: Seq<ConnectionEvent>,
    first: ConnectionEvent,
    second: ConnectionEvent,
)
    ensures
        ({
            let full = queue.push(first).push(second);
            &&& full.skip(queue.len() as int)[0] == first
            &&& full.skip(queue.len() as int).drop_first()[0] == second
            &&& queue.len() > 0 ==> full[0] == queue[0] && full.drop_first()
                == queue.drop_first().push(first).push(second)
        }),
{
    let full = queue.push(first).push(second);
    if queue.len() > 0 {
        assert(full.drop_first() =~= queue.drop_first().push(first).push(second));
    }
}

} // verus!
