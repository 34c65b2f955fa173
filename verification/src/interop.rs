//! How the endpoints of an interoperability test react to what happens on their connections.

use vstd::prelude::*;

use crate::event::ConnectionEvent;
use crate::types::StreamId;

verus! {

/// Something that happens on the connection of a test endpoint.
pub enum TestEvent {
    /// The connection reports an event.
    Reported(ConnectionEvent),
    /// The connection is closed.
    Closed,
}

/// What a server saw of one connection.
pub struct Echoed {
    /// What it received.
    pub data: Vec<u8>,
    /// Whether it received 0-RTT data (RFC 9001 Section 4.6).
    pub received_early_data: bool,
    /// Whether it found a new path valid (RFC 9000 Section 8.2).
    pub path_validated: bool,
    /// Whether it sent the data back.
    pub echo_sent: bool,
}

/// What came of sending 0-RTT data.
pub struct EarlyDataEcho {
    /// What the server sent back.
    pub echoed: Vec<u8>,
    /// Whether the server accepted the 0-RTT data.
    pub accepted: bool,
}

/// What a server knows of a connection.
#[verifier::ext_equal]
pub struct EchoState {
    /// What it has received.
    pub received: Seq<u8>,
    /// Whether a new path was found valid.
    pub path_validated: bool,
    /// Whether the data was sent back.
    pub echo_sent: bool,
}

impl EchoState {
    /// Nothing has happened yet.
    pub open spec fn start() -> EchoState {
        EchoState { received: Seq::empty(), path_validated: false, echo_sent: false }
    }

    /// After `event`: data is collected, the end of a stream sends all of it back, and a valid path
    /// is noted.
    pub open spec fn after(self, event: TestEvent) -> EchoState {
        match event {
            TestEvent::Reported(ConnectionEvent::StreamData { stream_id, data, fin }) => EchoState {
                received: self.received + data@,
                echo_sent: self.echo_sent || fin,
                ..self
            },
            TestEvent::Reported(ConnectionEvent::PathValidated { path, success }) => EchoState {
                path_validated: self.path_validated || success,
                ..self
            },
            _ => self,
        }
    }

    /// After all of `events` in order.
    pub open spec fn after_all(self, events: Seq<TestEvent>) -> EchoState
        decreases events.len(),
    {
        if events.len() == 0 {
            self
        } else {
            self.after_all(events.drop_last()).after(events.last())
        }
    }
}

/// The stream data in `events`, in order.
pub open spec fn stream_bytes(events: Seq<TestEvent>) -> Seq<u8>
    decreases events.len(),
{
    if events.len() == 0 {
        Seq::empty()
    } else {
        match events.last() {
            TestEvent::Reported(ConnectionEvent::StreamData { stream_id, data, fin }) => stream_bytes(
                events.drop_last(),
            ) + data@,
            _ => stream_bytes(events.drop_last()),
        }
    }
}

/// Whether `event` ends a stream.
pub open spec fn ends_stream(event: TestEvent) -> bool {
    event matches TestEvent::Reported(ConnectionEvent::StreamData { stream_id, data, fin }) && fin
}

/// Whether `event` finds a path valid.
pub open spec fn validates_path(event: TestEvent) -> bool {
    event matches TestEvent::Reported(ConnectionEvent::PathValidated { path, success }) && success
}

/// What a server sends back is what came, all of it and in order; it sends it back if and only if a
/// stream has ended, and notes a valid path if and only if there was one.
pub proof fn lemma_echo_is_what_came(events: Seq<TestEvent>)
    ensures
        EchoState::start().after_all(events).received == stream_bytes(events),
        EchoState::start().after_all(events).echo_sent <==> exists|i: int|
            0 <= i < events.len() && #[trigger] ends_stream(events[i]),
        EchoState::start().after_all(events).path_validated <==> exists|i: int|
            0 <= i < events.len() && #[trigger] validates_path(events[i]),
    decreases events.len(),
{
    if events.len() > 0 {
        let before = events.drop_last();
        lemma_echo_is_what_came(before);
        let last = events.len() - 1;
        if ends_stream(events.last()) {
            assert(ends_stream(events[last]));
        }
        if validates_path(events.last()) {
            assert(validates_path(events[last]));
        }
        if exists|i: int| 0 <= i < before.len() && #[trigger] ends_stream(before[i]) {
            let i = choose|i: int| 0 <= i < before.len() && #[trigger] ends_stream(before[i]);
            assert(ends_stream(events[i]));
        }
        if exists|i: int| 0 <= i < before.len() && #[trigger] validates_path(before[i]) {
            let i = choose|i: int| 0 <= i < before.len() && #[trigger] validates_path(before[i]);
            assert(validates_path(events[i]));
        }
        if exists|i: int| 0 <= i < events.len() && #[trigger] ends_stream(events[i]) {
            let i = choose|i: int| 0 <= i < events.len() && #[trigger] ends_stream(events[i]);
            if i < last {
                assert(ends_stream(before[i]));
            }
        }
        if exists|i: int| 0 <= i < events.len() && #[trigger] validates_path(events[i]) {
            let i = choose|i: int| 0 <= i < events.len() && #[trigger] validates_path(events[i]);
            if i < last {
                assert(validates_path(before[i]));
            }
        }
    }
}

/// What a server does upon an event.
#[derive(Debug, Clone, Copy, PartialEq, Eq, Structural)]
pub enum EchoAction {
    /// It waits for the next event.
    Wait,
    /// It gives back flow control credit and waits for the next event.
    Credit {
        /// The stream.
        stream_id: StreamId,
        /// How much credit.
        len: u64,
    },
    /// It gives back flow control credit and sends [`EchoSession::echo`] back on the stream.
    Echo {
        /// The stream.
        stream_id: StreamId,
        /// How much credit.
        len: u64,
        /// Whether it stops then.
        stop: bool,
    },
    /// It stops.
    Stop,
}

/// A connection of a server that sends back what it receives.
pub struct EchoSession {
    /// What it has received.
    pub received: Vec<u8>,
    /// Whether a new path was found valid.
    pub path_validated: bool,
    /// Whether the data was sent back.
    pub echo_sent: bool,
    /// Whether it goes on until the peer closes the connection.
    pub until_closed: bool,
}

impl View for EchoSession {
    type V = EchoState;

    open spec fn view(&self) -> EchoState {
        EchoState {
            received: self.received@,
            path_validated: self.path_validated,
            echo_sent: self.echo_sent,
        }
    }
}

impl EchoSession {
    /// Starts a connection. With `until_closed` it goes on after the data was sent back.
    pub fn new(until_closed: bool) -> (r: EchoSession)
        ensures
            r@ == EchoState::start(),
            r.until_closed == until_closed,
    {
        let r: EchoSession = EchoSession {
            received: Vec::new(),
            path_validated: false,
            echo_sent: false,
            until_closed,
        };
        assert(r@ =~= EchoState::start());
        r
    }

    /// Takes in an event and returns what to do.
    pub fn drive_until_closed(&mut self, event: TestEvent) -> (r: EchoAction)
        ensures
            final(self)@ == old(self)@.after(event),
            final(self).until_closed == old(self).until_closed,
            r == (match event {
                TestEvent::Reported(
                    ConnectionEvent::StreamData { stream_id, data, fin },
                ) => if fin {
                    EchoAction::Echo {
                        stream_id,
                        len: data@.len() as u64,
                        stop: !old(self).until_closed,
                    }
                } else {
                    EchoAction::Credit { stream_id, len: data@.len() as u64 }
                },
                TestEvent::Closed => EchoAction::Stop,
                _ => EchoAction::Wait,
            }),
    {
        let action: EchoAction = match event {
            TestEvent::Reported(reported) => match reported {
                ConnectionEvent::StreamData { stream_id, data, fin } => {
                    self.received.extend_from_slice(data.as_slice());
                    assert(self.received@ =~= old(self).received@ + data@);
                    if fin {
                        self.echo_sent = true;
                        EchoAction::Echo {
                            stream_id,
                            len: data.len() as u64,
                            stop: !self.until_closed,
                        }
                    } else {
                        EchoAction::Credit { stream_id, len: data.len() as u64 }
                    }
                },
                ConnectionEvent::PathValidated { path, success } => {
                    if success {
                        self.path_validated = true;
                    }
                    EchoAction::Wait
                },
                _ => EchoAction::Wait,
            },
            TestEvent::Closed => EchoAction::Stop,
        };
        assert(self@ =~= old(self)@.after(event));
        action
    }

    /// Returns what is sent back: all that was received.
    pub fn echo(&self) -> (r: &[u8])
        ensures
            r@ == self@.received,
    {
        self.received.as_slice()
    }

    /// Ends the connection and returns what the server saw of it.
    pub fn finish(self, received_early_data: bool) -> (r: Echoed)
        ensures
            r.data@ == self@.received,
            r.received_early_data == received_early_data,
            r.path_validated == self@.path_validated,
            r.echo_sent == self@.echo_sent,
    {
        Echoed {
            data: self.received,
            received_early_data,
            path_validated: self.path_validated,
            echo_sent: self.echo_sent,
        }
    }
}

/// A client that reads what the server sends back, until the stream ends.
pub struct EchoReader {
    /// What it has received.
    pub received: Vec<u8>,
    /// Whether the stream has ended.
    pub fin: bool,
}

impl EchoReader {
    /// Nothing read yet.
    pub fn new() -> (r: EchoReader)
        ensures
            r.received@ == Seq::<u8>::empty(),
            !r.fin,
    {
        EchoReader { received: Vec::new(), fin: false }
    }

    /// Takes in an event. Returns the stream and how much flow control credit goes back to it, if
    /// the event brought data.
    pub fn read_until_fin(&mut self, event: ConnectionEvent) -> (r: Option<(StreamId, u64)>)
        ensures
            match event {
                ConnectionEvent::StreamData { stream_id, data, fin } => {
                    &&& r == Some((stream_id, data@.len() as u64))
                    &&& final(self).received@ == old(self).received@ + data@
                    &&& final(self).fin == fin
                },
                _ => r is None && *final(self) == *old(self),
            },
    {
        match event {
            ConnectionEvent::StreamData { stream_id, data, fin } => {
                self.received.extend_from_slice(data.as_slice());
                assert(self.received@ =~= old(self).received@ + data@);
                self.fin = fin;
                Some((stream_id, data.len() as u64))
            },
            _ => None,
        }
    }
}

/// How often a client tries to move to a new address.
pub const MIGRATION_ATTEMPTS: u8 = 10;

/// Where a client stands that moves to a new address before it sends (RFC 9000 Section 9).
#[derive(Debug, Clone, Copy, PartialEq, Eq, Structural)]
pub enum Migration {
    /// It waits for the confirmation of the handshake; before that it may not move.
    AwaitConfirmation,
    /// It tries to move; so many tries have failed.
    Moving {
        /// How many tries have failed.
        failed: u8,
    },
    /// It waits for an event before it tries again: the peer may not have issued a connection ID
    /// yet (RFC 9000 Section 9.5).
    AwaitEvent {
        /// How many tries have failed.
        failed: u8,
    },
    /// It waits for the validation of the new path.
    AwaitValidation,
    /// The new path is valid; it sends.
    Ready,
    /// It could not move.
    NotMoved,
    /// The new path is not valid.
    PathInvalid,
}

impl Migration {
    /// Where the client stands after `event`.
    pub open spec fn after_event(self, event: ConnectionEvent) -> Migration {
        match self {
            Migration::AwaitConfirmation => if event == ConnectionEvent::HandshakeConfirmed {
                Migration::Moving { failed: 0 }
            } else {
                self
            },
            Migration::AwaitEvent { failed } => if failed < MIGRATION_ATTEMPTS {
                Migration::Moving { failed }
            } else {
                Migration::NotMoved
            },
            Migration::AwaitValidation => match event {
                ConnectionEvent::PathValidated { path, success } => if success {
                    Migration::Ready
                } else {
                    Migration::PathInvalid
                },
                _ => self,
            },
            _ => self,
        }
    }

    /// Where the client stands after a try to move.
    pub open spec fn after_try(self, moved: bool) -> Migration {
        match self {
            Migration::Moving { failed } => if moved {
                Migration::AwaitValidation
            } else {
                Migration::AwaitEvent {
                    failed: if failed < u8::MAX {
                        (failed + 1) as u8
                    } else {
                        failed
                    },
                }
            },
            _ => self,
        }
    }

    /// Whether no more tries have failed than are made.
    pub open spec fn wf(self) -> bool {
        match self {
            Migration::Moving { failed } => failed < MIGRATION_ATTEMPTS,
            Migration::AwaitEvent { failed } => 0 < failed <= MIGRATION_ATTEMPTS,
            _ => true,
        }
    }

    /// A client that has just connected.
    pub fn start() -> (r: Migration)
        ensures
            r == Migration::AwaitConfirmation,
            r.wf(),
    {
        Migration::AwaitConfirmation
    }

    /// Takes in an event.
    pub fn on_event(self, event: &ConnectionEvent) -> (r: Migration)
        ensures
            r == self.after_event(*event),
    {
        match self {
            Migration::AwaitConfirmation => match event {
                ConnectionEvent::HandshakeConfirmed => Migration::Moving { failed: 0 },
                _ => self,
            },
            Migration::AwaitEvent { failed } => if failed < MIGRATION_ATTEMPTS {
                Migration::Moving { failed }
            } else {
                Migration::NotMoved
            },
            Migration::AwaitValidation => match event {
                ConnectionEvent::PathValidated { path, success } => if *success {
                    Migration::Ready
                } else {
                    Migration::PathInvalid
                },
                _ => self,
            },
            _ => self,
        }
    }

    /// Takes in whether a try to move succeeded.
    pub fn on_try(self, moved: bool) -> (r: Migration)
        ensures
            r == self.after_try(moved),
    {
        match self {
            Migration::Moving { failed } => if moved {
                Migration::AwaitValidation
            } else {
                Migration::AwaitEvent { failed: failed.saturating_add(1) }
            },
            _ => self,
        }
    }
}

/// Every step of a client that moves: it tries as soon as the handshake is confirmed, again after an
/// event as long as fewer than ten tries have failed, and sends or gives up as the new path is found
/// valid or not. Nothing else moves it on.
pub proof fn lemma_migration_steps(failed: u8, event: ConnectionEvent, moved: bool)
    requires
        failed < 10,
    ensures
        event == ConnectionEvent::HandshakeConfirmed ==> Migration::AwaitConfirmation.after_event(
            event,
        ) == (Migration::Moving { failed: 0 }),
        event != ConnectionEvent::HandshakeConfirmed ==> Migration::AwaitConfirmation.after_event(
            event,
        ) == Migration::AwaitConfirmation,
        (Migration::Moving { failed }).after_try(true) == Migration::AwaitValidation,
        (Migration::Moving { failed }).after_try(false) == (Migration::AwaitEvent {
            failed: (failed + 1) as u8,
        }),
        (Migration::AwaitEvent { failed }).after_event(event) == (Migration::Moving { failed }),
        (Migration::AwaitEvent { failed: 10 }).after_event(event) == Migration::NotMoved,
        (Migration::AwaitValidation.after_event(event) == (match event {
            ConnectionEvent::PathValidated { path, success } => if success {
                Migration::Ready
            } else {
                Migration::PathInvalid
            },
            _ => Migration::AwaitValidation,
        })),
        (Migration::Moving { failed }).after_event(event) == (Migration::Moving { failed }),
        Migration::Ready.after_event(event) == Migration::Ready,
        Migration::NotMoved.after_event(event) == Migration::NotMoved,
        Migration::PathInvalid.after_event(event) == Migration::PathInvalid,
        Migration::AwaitConfirmation.after_try(moved) == Migration::AwaitConfirmation,
        (Migration::AwaitEvent { failed }).after_try(moved) == (Migration::AwaitEvent { failed }),
        Migration::AwaitValidation.after_try(moved) == Migration::AwaitValidation,
{
}

/// A client never moves before its handshake is confirmed, never sends before its new path is valid,
/// and tries at most as often as it is to.
pub proof fn lemma_migration_order(m: Migration, event: ConnectionEvent, moved: bool)
    requires
        m.wf(),
    ensures
        m.after_event(event).wf(),
        m.after_try(moved).wf(),
        m == Migration::AwaitConfirmation && m.after_event(event) != m ==> event
            == ConnectionEvent::HandshakeConfirmed,
        m != Migration::Ready && m.after_event(event) == Migration::Ready ==> m
            == Migration::AwaitValidation && (event matches ConnectionEvent::PathValidated {
            path,
            success,
        } && success),
        m != Migration::Ready ==> m.after_try(moved) != Migration::Ready,
{
}

} // verus!
