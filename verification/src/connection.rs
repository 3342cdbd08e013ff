//! The connection handler as a state machine.
//!
//! A connection starts out `Reading`. The driver waits for read-readiness,
//! attempts one non-blocking read into a fresh buffer and reports what
//! happened as an `Event`; `Connection::step` answers with the `Action` to
//! perform. `Closed` and `Failed` are final: once there, nothing more is read
//! or written.

use vstd::prelude::*;
use vstd::utf8::*;
use crate::outcome::ReadOutcome;
use crate::outcome::ReadOutcomeView;
use crate::wire::ack_bytes;
use crate::wire::acknowledgment;
use crate::wire::decode_lossy;
use crate::wire::lossy_text;

verus! {

/// Where a connection stands.
#[derive(Clone, Copy, Debug, PartialEq, Eq, Structural)]
pub enum ConnState {
    /// Waiting for input from the peer.
    Reading,
    /// The peer closed the stream; the handler ended without error.
    Closed,
    /// An I/O error ended the handler.
    Failed,
}

impl ConnState {
    /// `Closed` and `Failed` are final.
    pub open spec fn is_terminal(&self) -> bool {
        *self != ConnState::Reading
    }

    /// Whether the handler has ended.
    pub fn terminal(&self) -> (t: bool)
        ensures
            t == self.is_terminal(),
    {
        match *self {
            ConnState::Reading => false,
            ConnState::Closed => true,
            ConnState::Failed => true,
        }
    }
}

/// The error that ends a connection, tagged with the peer it belongs to.
#[derive(Debug)]
pub struct ConnectionIoError {
    pub peer: String,
    pub source: std::io::Error,
}

/// What the driver reports to the handler.
#[derive(Debug)]
pub enum Event {
    /// Waiting for read-readiness failed.
    ReadinessFailed(std::io::Error),
    /// Readiness was signalled and one read was attempted.
    ReadAttempted(ReadOutcome),
    /// The acknowledgment could not be written.
    AcknowledgmentFailed(std::io::Error),
}

/// `Event` with staged bytes as a sequence.
pub enum EventView {
    ReadinessFailed(std::io::Error),
    ReadAttempted(ReadOutcomeView),
    AcknowledgmentFailed(std::io::Error),
}

impl EventView {
    /// The I/O error that this event reports, if it reports one that the
    /// connection cannot survive.
    pub open spec fn error(&self) -> Option<std::io::Error> {
        match *self {
            EventView::ReadinessFailed(source) => Some(source),
            EventView::ReadAttempted(ReadOutcomeView::ConnectionIoError(source)) => Some(source),
            EventView::ReadAttempted(_) => None,
            EventView::AcknowledgmentFailed(source) => Some(source),
        }
    }
}

impl View for Event {
    type V = EventView;

    open spec fn view(&self) -> EventView {
        match *self {
            Event::ReadinessFailed(source) => EventView::ReadinessFailed(source),
            Event::ReadAttempted(outcome) => EventView::ReadAttempted(outcome@),
            Event::AcknowledgmentFailed(source) => EventView::AcknowledgmentFailed(source),
        }
    }
}

/// What the handler asks of the driver.
#[derive(Debug)]
pub enum Action {
    /// Record the chunk (`bytes_read` bytes, decoded as `text`), write `reply`
    /// to the peer, then wait for readiness again.
    Acknowledge { bytes_read: usize, text: String, reply: Vec<u8> },
    /// Nothing was read: wait for readiness again.
    AwaitReadable,
    /// Release the socket; the handler ends without error.
    Close,
    /// Release the socket; the handler ends with this error.
    Fail(ConnectionIoError),
    /// The handler had already ended: touch nothing.
    Halt,
}

/// `Action` with text and bytes as sequences.
pub enum ActionView {
    Acknowledge { bytes_read: usize, text: Seq<char>, reply: Seq<u8> },
    AwaitReadable,
    Close,
    Fail { peer: Seq<char>, source: std::io::Error },
    Halt,
}

impl View for Action {
    type V = ActionView;

    open spec fn view(&self) -> ActionView {
        match *self {
            Action::Acknowledge { bytes_read, text, reply } => ActionView::Acknowledge {
                bytes_read,
                text: text@,
                reply: reply@,
            },
            Action::AwaitReadable => ActionView::AwaitReadable,
            Action::Close => ActionView::Close,
            Action::Fail(error) => ActionView::Fail { peer: error.peer@, source: error.source },
            Action::Halt => ActionView::Halt,
        }
    }
}

impl ActionView {
    /// Whether this action ends the handler.
    pub open spec fn is_final(&self) -> bool {
        *self is Close || *self is Fail
    }
}

/// One accepted connection: the peer's address and the handler's state.
#[derive(Debug)]
pub struct Connection {
    peer: String,
    state: ConnState,
}

/// A connection as the contracts speak of it.
pub struct ConnectionView {
    pub peer: Seq<char>,
    pub state: ConnState,
}

impl View for Connection {
    type V = ConnectionView;

    closed spec fn view(&self) -> ConnectionView {
        ConnectionView { peer: self.peer@, state: self.state }
    }
}

impl ConnectionView {
    /// The same connection in another state.
    pub open spec fn moved_to(self, state: ConnState) -> ConnectionView {
        ConnectionView { peer: self.peer, state }
    }

    /// The connection after an I/O error, and the action that surfaces it.
    pub open spec fn failed_with(self, source: std::io::Error) -> (ConnectionView, ActionView) {
        (self.moved_to(ConnState::Failed), ActionView::Fail { peer: self.peer, source })
    }
}

/// The handler's transition: the connection after `event`, and the action
/// that answers it.
///
/// While `Reading`: data is acknowledged with the fixed reply whatever it
/// holds, and the connection keeps reading; a zero-length read closes it; a
/// would-block read changes nothing; any I/O error fails it and is surfaced
/// as it came, tagged with the peer. A connection that has ended stays as it
/// is and asks for nothing.
pub open spec fn step_spec(conn: ConnectionView, event: EventView) -> (ConnectionView, ActionView) {
    if conn.state.is_terminal() {
        (conn, ActionView::Halt)
    } else {
        match event {
            EventView::ReadinessFailed(source) => conn.failed_with(source),
            EventView::ReadAttempted(outcome) => match outcome {
                ReadOutcomeView::Data { bytes_read, bytes } => (
                    conn,
                    ActionView::Acknowledge {
                        bytes_read,
                        text: lossy_text(bytes),
                        reply: ack_bytes(),
                    },
                ),
                ReadOutcomeView::OrderlyClose => (
                    conn.moved_to(ConnState::Closed),
                    ActionView::Close,
                ),
                ReadOutcomeView::TransientUnavailable => (conn, ActionView::AwaitReadable),
                ReadOutcomeView::ConnectionIoError(source) => conn.failed_with(source),
            },
            EventView::AcknowledgmentFailed(source) => conn.failed_with(source),
        }
    }
}

/// The action that acknowledges a chunk of `bytes_read` bytes decoded as
/// `text`: the reply is the fixed acknowledgment, whatever the text.
pub fn acknowledge(bytes_read: usize, text: String) -> (action: Action)
    ensures
        action@ == (ActionView::Acknowledge { bytes_read, text: text@, reply: ack_bytes() }),
{
    Action::Acknowledge { bytes_read, text, reply: acknowledgment() }
}

impl Connection {
    /// A connection just accepted from `peer`: it starts out reading.
    pub fn new(peer: String) -> (conn: Connection)
        ensures
            conn@ == (ConnectionView { peer: peer@, state: ConnState::Reading }),
    {
        Connection { peer, state: ConnState::Reading }
    }

    /// Where the connection stands.
    pub fn state(&self) -> (state: ConnState)
        ensures
            state == self@.state,
    {
        self.state
    }

    /// The address of the peer.
    pub fn peer(&self) -> (peer: &str)
        ensures
            peer@ == self@.peer,
    {
        self.peer.as_str()
    }

    /// Ends the handler with an I/O error, tagged with this connection's peer.
    fn fail(&mut self, source: std::io::Error) -> (action: Action)
        ensures
            (final(self)@, action@) == old(self)@.failed_with(source),
    {
        self.state = ConnState::Failed;
        Action::Fail(ConnectionIoError { peer: self.peer.clone(), source })
    }

    /// Takes one event and answers with the action to perform.
    ///
    /// The transition is `step_spec`. The text of an acknowledged chunk is the
    /// lossy decoding of its bytes; where the bytes are well-formed UTF-8 that
    /// is the very string they encode.
    pub fn step(&mut self, event: Event) -> (action: Action)
        ensures
            (final(self)@, action@) == step_spec(old(self)@, event@),
            action@ matches ActionView::Acknowledge { text, .. } ==> event@ matches EventView::ReadAttempted(
                ReadOutcomeView::Data { bytes, .. },
            ) && (valid_utf8(bytes) ==> text == decode_utf8(bytes)),
    {
        if self.state.terminal() {
            return Action::Halt;
        }
        match event {
            Event::ReadinessFailed(source) => self.fail(source),
            Event::ReadAttempted(outcome) => match outcome {
                ReadOutcome::Data { bytes_read, bytes } => {
                    let text = decode_lossy(&bytes);
                    acknowledge(bytes_read, text)
                },
                ReadOutcome::OrderlyClose => {
                    self.state = ConnState::Closed;
                    Action::Close
                },
                ReadOutcome::TransientUnavailable => Action::AwaitReadable,
                ReadOutcome::ConnectionIoError(source) => self.fail(source),
            },
            Event::AcknowledgmentFailed(source) => self.fail(source),
        }
    }
}

} // verus!
