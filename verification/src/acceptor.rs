//! The acceptor as a state machine.
//!
//! The driver binds the listening address once and reports the result to
//! `Acceptor::start`. Then it waits for the next connection, again and again,
//! and reports each attempt to `Acceptor::step`, which answers with what to
//! do: start a handler for the new socket and go on accepting, or stop.
//! No answer depends on how any handler fares.

use vstd::prelude::*;
use crate::connection::ConnState;
use crate::connection::Connection;
use crate::connection::ConnectionView;

verus! {

/// The errors that end the whole server.
#[derive(Debug)]
pub enum ServerError {
    /// The listening address could not be bound.
    Bind(std::io::Error),
    /// Waiting for the next connection failed.
    Accept(std::io::Error),
}

/// Where the acceptor stands.
#[derive(Clone, Copy, Debug, PartialEq, Eq, Structural)]
pub enum AcceptorState {
    /// Bound, and accepting connections.
    Listening,
    /// Ended by a failed accept.
    Stopped,
}

/// What the acceptor asks of the driver.
#[derive(Debug)]
pub enum Dispatch<S> {
    /// Announce the peer, start an independent handler that owns `socket`
    /// and `connection`, and accept the next connection without waiting for it.
    Spawn { socket: S, connection: Connection },
    /// Stop accepting; the server ends with this error.
    Stop(ServerError),
    /// The acceptor had already stopped: accept nothing.
    Halt,
}

/// `Dispatch` with the new connection as the contracts speak of it.
pub enum DispatchView<S> {
    Spawn { socket: S, connection: ConnectionView },
    Stop(ServerError),
    Halt,
}

impl<S> View for Dispatch<S> {
    type V = DispatchView<S>;

    open spec fn view(&self) -> DispatchView<S> {
        match *self {
            Dispatch::Spawn { socket, connection } => DispatchView::Spawn {
                socket,
                connection: connection@,
            },
            Dispatch::Stop(error) => DispatchView::Stop(error),
            Dispatch::Halt => DispatchView::Halt,
        }
    }
}

/// One attempt to accept, with the peer's address as the contracts speak of
/// it: the new socket and its peer, or the error.
pub open spec fn attempt_view<S>(attempt: Result<(S, String), std::io::Error>) -> Result<
    (S, Seq<char>),
    std::io::Error,
> {
    match attempt {
        Ok((socket, peer)) => Ok((socket, peer@)),
        Err(error) => Err(error),
    }
}

/// The acceptor's transition: its state after `attempt`, and what it asks for.
///
/// While listening, every accepted socket gets a handler of its own, which
/// starts out reading for that peer, and the acceptor goes on listening; a
/// failed accept stops it for good and is surfaced as it came.
pub open spec fn accept_spec<S>(
    state: AcceptorState,
    attempt: Result<(S, Seq<char>), std::io::Error>,
) -> (AcceptorState, DispatchView<S>) {
    match state {
        AcceptorState::Stopped => (AcceptorState::Stopped, DispatchView::Halt),
        AcceptorState::Listening => match attempt {
            Ok((socket, peer)) => (
                AcceptorState::Listening,
                DispatchView::Spawn {
                    socket,
                    connection: ConnectionView { peer, state: ConnState::Reading },
                },
            ),
            Err(error) => (AcceptorState::Stopped, DispatchView::Stop(ServerError::Accept(error))),
        },
    }
}

/// The views of a list of attempts, in order.
pub open spec fn attempt_views<S>(attempts: Seq<Result<(S, String), std::io::Error>>) -> Seq<
    Result<(S, Seq<char>), std::io::Error>,
> {
    attempts.map_values(|attempt: Result<(S, String), std::io::Error>| attempt_view(attempt))
}

/// The views of a list of dispatches, in order.
pub open spec fn dispatch_views<S>(dispatches: Seq<Dispatch<S>>) -> Seq<DispatchView<S>> {
    dispatches.map_values(|dispatch: Dispatch<S>| dispatch@)
}

/// The acceptor run over `attempts`: its state at the end, and what it asked
/// for, one answer for each attempt that reached it. Attempts that come after
/// it has stopped are never looked at.
pub open spec fn serve_spec<S>(
    state: AcceptorState,
    attempts: Seq<Result<(S, Seq<char>), std::io::Error>>,
) -> (AcceptorState, Seq<DispatchView<S>>)
    decreases attempts.len(),
{
    if attempts.len() == 0 || state == AcceptorState::Stopped {
        (state, Seq::empty())
    } else {
        let (next, dispatch) = accept_spec(state, attempts.first());
        let (last, rest) = serve_spec(next, attempts.drop_first());
        (last, seq![dispatch] + rest)
    }
}

/// The handler that an acceptor who is listening starts for an accepted
/// socket: it owns the socket and starts out reading for that peer.
pub open spec fn handler_for<S>(accepted: (S, Seq<char>)) -> DispatchView<S> {
    DispatchView::Spawn {
        socket: accepted.0,
        connection: ConnectionView { peer: accepted.1, state: ConnState::Reading },
    }
}

/// The acceptor of a server.
#[derive(Debug)]
pub struct Acceptor {
    state: AcceptorState,
}

impl View for Acceptor {
    type V = AcceptorState;

    closed spec fn view(&self) -> AcceptorState {
        self.state
    }
}

impl Acceptor {
    /// Starts the acceptor on the result of binding the listening address.
    ///
    /// A bound listener is handed back beside an acceptor that is listening.
    /// A failed bind is fatal: there is no retry and no other address.
    pub fn start<L>(bound: Result<L, std::io::Error>) -> (started: Result<(L, Acceptor), ServerError>)
        ensures
            match bound {
                Ok(listener) => started matches Ok((handed, acceptor)) && handed == listener
                    && acceptor@ == AcceptorState::Listening,
                Err(error) => started == Err::<(L, Acceptor), ServerError>(ServerError::Bind(error)),
            },
    {
        match bound {
            Ok(listener) => Ok((listener, Acceptor { state: AcceptorState::Listening })),
            Err(error) => Err(ServerError::Bind(error)),
        }
    }

    /// Where the acceptor stands.
    pub fn state(&self) -> (state: AcceptorState)
        ensures
            state == self@,
    {
        self.state
    }

    /// Takes the result of one attempt to accept and answers with what to do.
    pub fn step<S>(&mut self, attempt: Result<(S, String), std::io::Error>) -> (dispatch: Dispatch<S>)
        ensures
            (final(self)@, dispatch@) == accept_spec(old(self)@, attempt_view(attempt)),
    {
        match self.state {
            AcceptorState::Stopped => Dispatch::Halt,
            AcceptorState::Listening => match attempt {
                Ok((socket, peer)) => Dispatch::Spawn { socket, connection: Connection::new(peer) },
                Err(error) => {
                    self.state = AcceptorState::Stopped;
                    Dispatch::Stop(ServerError::Accept(error))
                },
            },
        }
    }
}

impl Acceptor {
    /// Runs the acceptor over a script of attempts and returns what it asked
    /// for, in order.
    pub fn run<S>(&mut self, attempts: Vec<Result<(S, String), std::io::Error>>) -> (dispatches: Vec<
        Dispatch<S>,
    >)
        ensures
            (final(self)@, dispatch_views(dispatches@)) == serve_spec(
                old(self)@,
                attempt_views(attempts@),
            ),
    {
        let ghost start = self@;
        let ghost script = attempt_views(attempts@);
        let mut dispatches: Vec<Dispatch<S>> = Vec::new();
        proof {
            assert(script.skip(0) =~= script);
        }
        for attempt in it: attempts
            invariant
                script == attempt_views(it.seq()),
                serve_spec(start, script) == ({
                    let (last, rest) = serve_spec(self@, script.skip(it.index()));
                    (last, dispatch_views(dispatches@) + rest)
                }),
        {
            assert(script.skip(it.index()).drop_first() =~= script.skip(it.index() + 1));
            match self.state {
                AcceptorState::Stopped => {},
                AcceptorState::Listening => {
                    let dispatch = self.step(attempt);
                    dispatches.push(dispatch);
                },
            }
        }
        dispatches
    }
}

/// Every connection that is accepted gets a handler of its own, for its own
/// socket and peer, and the acceptor goes on listening: as many handlers are
/// started as connections were accepted, in the order of acceptance, and none
/// is waited for.
pub proof fn every_accepted_connection_gets_a_handler<S>(
    attempts: Seq<Result<(S, Seq<char>), std::io::Error>>,
)
    requires
        forall|i: int| 0 <= i < attempts.len() ==> (#[trigger] attempts[i]) is Ok,
    ensures
        serve_spec(AcceptorState::Listening, attempts) == (
            AcceptorState::Listening,
            Seq::new(attempts.len(), |i: int| handler_for(attempts[i]->Ok_0)),
        ),
    decreases attempts.len(),
{
    if attempts.len() > 0 {
        every_accepted_connection_gets_a_handler(attempts.drop_first());
    }
}

/// A failed accept ends the server: after however many connections were
/// accepted and given their handlers, the acceptor stops with that very
/// error, and nothing that follows is looked at.
pub proof fn failed_accept_stops_the_server<S>(
    accepted: Seq<Result<(S, Seq<char>), std::io::Error>>,
    error: std::io::Error,
    after: Seq<Result<(S, Seq<char>), std::io::Error>>,
)
    requires
        forall|i: int| 0 <= i < accepted.len() ==> (#[trigger] accepted[i]) is Ok,
    ensures
        serve_spec(
            AcceptorState::Listening,
            accepted + seq![Err::<(S, Seq<char>), std::io::Error>(error)] + after,
        ) == (
            AcceptorState::Stopped,
            Seq::new(accepted.len(), |i: int| handler_for(accepted[i]->Ok_0)) + seq![
                DispatchView::Stop(ServerError::Accept(error)),
            ],
        ),
    decreases accepted.len(),
{
    let failed = Err::<(S, Seq<char>), std::io::Error>(error);
    let script = accepted + seq![failed] + after;
    if accepted.len() == 0 {
        assert(serve_spec(AcceptorState::Stopped, script.drop_first()).1
            =~= Seq::<DispatchView<S>>::empty());
    } else {
        let later = accepted.drop_first();
        assert(script.drop_first() =~= later + seq![failed] + after);
        failed_accept_stops_the_server(later, error, after);
    }
}

} // verus!
