//! A whole session of one connection: the handler run over a script of
//! events, from the first event to the end of the script or of the handler.

use vstd::prelude::*;
use crate::connection::Action;
use crate::connection::ActionView;
use crate::connection::Connection;
use crate::connection::ConnectionView;
use crate::connection::Event;
use crate::connection::EventView;
use crate::connection::step_spec;
use crate::connection::ConnState;
use crate::outcome::classify_spec;
use crate::outcome::ReadOutcomeView;
use crate::wire::ack_bytes;
use crate::wire::lossy_text;

verus! {

/// The views of a list of events, in order.
pub open spec fn event_views(events: Seq<Event>) -> Seq<EventView> {
    events.map_values(|event: Event| event@)
}

/// The views of a list of actions, in order.
pub open spec fn action_views(actions: Seq<Action>) -> Seq<ActionView> {
    actions.map_values(|action: Action| action@)
}

/// The handler run over `events`: the connection at the end, and the actions
/// taken, one for each event that reached the handler. Events that come after
/// the handler has ended are never looked at.
pub open spec fn run_spec(conn: ConnectionView, events: Seq<EventView>) -> (
    ConnectionView,
    Seq<ActionView>,
)
    decreases events.len(),
{
    if events.len() == 0 || conn.state.is_terminal() {
        (conn, Seq::empty())
    } else {
        let (next, action) = step_spec(conn, events.first());
        let (last, rest) = run_spec(next, events.drop_first());
        (last, seq![action] + rest)
    }
}

impl Connection {
    /// Runs the handler over a script of events and returns the actions it
    /// took, in order.
    pub fn run(&mut self, events: Vec<Event>) -> (actions: Vec<Action>)
        ensures
            (final(self)@, action_views(actions@)) == run_spec(old(self)@, event_views(events@)),
    {
        let ghost start = self@;
        let ghost script = event_views(events@);
        let mut actions: Vec<Action> = Vec::new();
        proof {
            assert(script.skip(0) =~= script);
        }
        for event in it: events
            invariant
                script == event_views(it.seq()),
                run_spec(start, script) == ({
                    let (last, rest) = run_spec(self@, script.skip(it.index()));
                    (last, action_views(actions@) + rest)
                }),
        {
            assert(script.skip(it.index()).drop_first() =~= script.skip(it.index() + 1));
            if !self.state().terminal() {
                let action = self.step(event);
                actions.push(action);
            }
        }
        actions
    }
}

/// A handler that has ended takes nothing from any script: the connection
/// stays as it is and no action is taken.
pub proof fn ended_handler_does_nothing(conn: ConnectionView, events: Seq<EventView>)
    requires
        conn.state.is_terminal(),
    ensures
        run_spec(conn, events) == (conn, Seq::<ActionView>::empty()),
        forall|event: EventView| #[trigger] step_spec(conn, event) == (conn, ActionView::Halt),
{
}

/// The shape of every session that starts out reading.
///
/// Each event that reaches the handler is answered as if it were the first,
/// so the handler keeps nothing from one read to the next. The peer never
/// changes. Only the last action can end the handler, and the handler has
/// ended exactly when it does: closed after `Close`, failed after `Fail`.
/// A handler that has not ended has answered the whole script, and it never
/// answers with `Halt`.
pub proof fn session_shape(conn: ConnectionView, events: Seq<EventView>)
    requires
        conn.state == ConnState::Reading,
    ensures
        ({
            let (last, actions) = run_spec(conn, events);
            &&& actions.len() <= events.len()
            &&& last.peer == conn.peer
            &&& forall|i: int|
                0 <= i < actions.len() ==> #[trigger] actions[i] == step_spec(conn, events[i]).1
            &&& forall|i: int| 0 <= i < actions.len() ==> !(#[trigger] actions[i] is Halt)
            &&& forall|i: int| 0 <= i < actions.len() - 1 ==> !(#[trigger] actions[i]).is_final()
            &&& last.state == ConnState::Closed <==> actions.len() > 0 && actions.last() is Close
            &&& last.state == ConnState::Failed <==> actions.len() > 0 && actions.last() is Fail
            &&& last.state == ConnState::Reading ==> actions.len() == events.len()
        }),
    decreases events.len(),
{
    if events.len() > 0 {
        let next = step_spec(conn, events.first()).0;
        if next.state.is_terminal() {
            ended_handler_does_nothing(next, events.drop_first());
        } else {
            session_shape(conn, events.drop_first());
        }
    }
}

/// Every chunk of data that reaches the handler is answered by one
/// acknowledgment, and nothing else is: the reply is the fixed one, and the
/// text is the lossy decoding of that chunk alone.
pub proof fn one_acknowledgment_per_chunk(conn: ConnectionView, events: Seq<EventView>, i: int)
    requires
        conn.state == ConnState::Reading,
        0 <= i < run_spec(conn, events).1.len(),
    ensures
        i < events.len(),
        events[i] matches EventView::ReadAttempted(ReadOutcomeView::Data { bytes_read, bytes })
            ==> run_spec(conn, events).1[i] == (ActionView::Acknowledge {
            bytes_read,
            text: lossy_text(bytes),
            reply: ack_bytes(),
        }),
        run_spec(conn, events).1[i] is Acknowledge ==> events[i] matches EventView::ReadAttempted(
            ReadOutcomeView::Data { .. },
        ),
{
    session_shape(conn, events);
}

/// A connection that sends one chunk of `bytes_read > 0` bytes and then
/// closes in good order: the chunk is decoded once, one acknowledgment is
/// written, and the handler ends without error.
pub proof fn chunk_then_close(
    conn: ConnectionView,
    bytes_read: usize,
    bytes: Seq<u8>,
    leftover: Seq<u8>,
)
    requires
        conn.state == ConnState::Reading,
        bytes_read > 0,
    ensures
        run_spec(
            conn,
            seq![
                EventView::ReadAttempted(classify_spec(Ok(bytes_read), bytes)),
                EventView::ReadAttempted(classify_spec(Ok(0), leftover)),
            ],
        ) == (
            conn.moved_to(ConnState::Closed),
            seq![
                ActionView::Acknowledge { bytes_read, text: lossy_text(bytes), reply: ack_bytes() },
                ActionView::Close,
            ],
        ),
{
    let first = EventView::ReadAttempted(classify_spec(Ok(bytes_read), bytes));
    let second = EventView::ReadAttempted(classify_spec(Ok(0), leftover));
    assert(seq![first, second].drop_first() =~= seq![second]);
    assert(seq![second].drop_first() =~= Seq::<EventView>::empty());
    let closed = conn.moved_to(ConnState::Closed);
    assert(run_spec(closed, Seq::<EventView>::empty()) == (closed, Seq::<ActionView>::empty()));
    assert(run_spec(conn, seq![second]).1 =~= seq![ActionView::Close]);
}

/// A connection that closes before it has sent anything: the handler ends
/// without error and without ever writing an acknowledgment.
pub proof fn immediate_close(conn: ConnectionView, leftover: Seq<u8>)
    requires
        conn.state == ConnState::Reading,
    ensures
        run_spec(conn, seq![EventView::ReadAttempted(classify_spec(Ok(0), leftover))]) == (
            conn.moved_to(ConnState::Closed),
            seq![ActionView::Close],
        ),
{
    let only = EventView::ReadAttempted(classify_spec(Ok(0), leftover));
    let closed = conn.moved_to(ConnState::Closed);
    assert(seq![only].drop_first() =~= Seq::<EventView>::empty());
    assert(run_spec(closed, Seq::<EventView>::empty()) == (closed, Seq::<ActionView>::empty()));
}

/// Reads that would have blocked, however many: the handler does not end,
/// surfaces no error, and answers each by waiting for readiness again.
pub proof fn would_block_keeps_reading(conn: ConnectionView, events: Seq<EventView>)
    requires
        conn.state == ConnState::Reading,
        forall|i: int|
            0 <= i < events.len() ==> #[trigger] events[i] == EventView::ReadAttempted(
                ReadOutcomeView::TransientUnavailable,
            ),
    ensures
        run_spec(conn, events) == (
            conn,
            Seq::new(events.len(), |i: int| ActionView::AwaitReadable),
        ),
{
    session_shape(conn, events);
}

/// A socket that fails while the handler is reading, be it while waiting for
/// readiness, in the read or in writing the acknowledgment: the handler ends
/// as failed and surfaces that very error, tagged with its own peer, after
/// whatever was read and acknowledged before. Nothing that follows is looked
/// at.
pub proof fn io_error_ends_session(
    conn: ConnectionView,
    before: Seq<EventView>,
    fatal: EventView,
    source: std::io::Error,
    after: Seq<EventView>,
)
    requires
        conn.state == ConnState::Reading,
        run_spec(conn, before).0.state == ConnState::Reading,
        fatal.error() == Some(source),
    ensures
        run_spec(conn, before + seq![fatal] + after) == (
            conn.moved_to(ConnState::Failed),
            run_spec(conn, before).1 + seq![ActionView::Fail { peer: conn.peer, source }],
        ),
    decreases before.len(),
{
    let script = before + seq![fatal] + after;
    if before.len() == 0 {
        ended_handler_does_nothing(conn.moved_to(ConnState::Failed), script.drop_first());
    } else {
        let next = step_spec(conn, before.first()).0;
        assert(script.drop_first() =~= before.drop_first() + seq![fatal] + after);
        if next.state.is_terminal() {
            ended_handler_does_nothing(next, before.drop_first());
        }
        io_error_ends_session(conn, before.drop_first(), fatal, source, after);
    }
}

} // verus!
