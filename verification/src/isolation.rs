//! Two connections side by side.
//!
//! Connections share nothing, so whatever the order in which their events
//! arrive, each behaves as if it were alone.

use vstd::prelude::*;
use crate::connection::ActionView;
use crate::connection::ConnState;
use crate::connection::ConnectionView;
use crate::connection::EventView;
use crate::connection::step_spec;
use crate::outcome::ReadOutcomeView;
use crate::session::run_spec;
use crate::wire::ack_bytes;

verus! {

/// Which of two connections an event is for.
pub enum Side {
    Left,
    Right,
}

/// The events of `arrivals` that are for the connection on `side`, in order.
pub open spec fn addressed_to(arrivals: Seq<(Side, EventView)>, side: Side) -> Seq<EventView>
    decreases arrivals.len(),
{
    if arrivals.len() == 0 {
        Seq::empty()
    } else if arrivals.first().0 == side {
        seq![arrivals.first().1] + addressed_to(arrivals.drop_first(), side)
    } else {
        addressed_to(arrivals.drop_first(), side)
    }
}

/// Two handlers fed from one stream of arrivals, each event going to the
/// connection it is for: both sessions, as `run_spec` gives one.
pub open spec fn run_pair(
    left: ConnectionView,
    right: ConnectionView,
    arrivals: Seq<(Side, EventView)>,
) -> ((ConnectionView, Seq<ActionView>), (ConnectionView, Seq<ActionView>))
    decreases arrivals.len(),
{
    if arrivals.len() == 0 {
        ((left, Seq::empty()), (right, Seq::empty()))
    } else {
        let (side, event) = arrivals.first();
        match side {
            Side::Left => if left.state.is_terminal() {
                run_pair(left, right, arrivals.drop_first())
            } else {
                let (next, action) = step_spec(left, event);
                let ((last, rest), other) = run_pair(next, right, arrivals.drop_first());
                ((last, seq![action] + rest), other)
            },
            Side::Right => if right.state.is_terminal() {
                run_pair(left, right, arrivals.drop_first())
            } else {
                let (next, action) = step_spec(right, event);
                let (other, (last, rest)) = run_pair(left, next, arrivals.drop_first());
                (other, (last, seq![action] + rest))
            },
        }
    }
}

/// Whatever the order of arrival, each of two connections goes through
/// exactly the session it would have had alone: an event for one, an error
/// on one, the end of one, leave the other untouched.
pub proof fn connections_do_not_interfere(
    left: ConnectionView,
    right: ConnectionView,
    arrivals: Seq<(Side, EventView)>,
)
    ensures
        run_pair(left, right, arrivals) == (
            run_spec(left, addressed_to(arrivals, Side::Left)),
            run_spec(right, addressed_to(arrivals, Side::Right)),
        ),
    decreases arrivals.len(),
{
    if arrivals.len() > 0 {
        let (side, event) = arrivals.first();
        let later = arrivals.drop_first();
        match side {
            Side::Left => {
                assert(addressed_to(arrivals, Side::Left).drop_first() =~= addressed_to(
                    later,
                    Side::Left,
                ));
                if left.state.is_terminal() {
                    connections_do_not_interfere(left, right, later);
                } else {
                    connections_do_not_interfere(step_spec(left, event).0, right, later);
                }
            },
            Side::Right => {
                assert(addressed_to(arrivals, Side::Right).drop_first() =~= addressed_to(
                    later,
                    Side::Right,
                ));
                if right.state.is_terminal() {
                    connections_do_not_interfere(left, right, later);
                } else {
                    connections_do_not_interfere(left, step_spec(right, event).0, later);
                }
            },
        }
    }
}

/// Two orders of arrival that bring each connection the same events bring
/// both to the same end through the same actions.
pub proof fn arrival_order_is_immaterial(
    left: ConnectionView,
    right: ConnectionView,
    one_order: Seq<(Side, EventView)>,
    other_order: Seq<(Side, EventView)>,
)
    requires
        addressed_to(one_order, Side::Left) == addressed_to(other_order, Side::Left),
        addressed_to(one_order, Side::Right) == addressed_to(other_order, Side::Right),
    ensures
        run_pair(left, right, one_order) == run_pair(left, right, other_order),
{
    connections_do_not_interfere(left, right, one_order);
    connections_do_not_interfere(left, right, other_order);
}

/// The same input on two connections that are reading draws the same answer
/// from both, whoever their peers are; and the reply is the fixed
/// acknowledgment whatever the input was.
pub proof fn same_input_same_acknowledgment(
    one: ConnectionView,
    other: ConnectionView,
    bytes_read: usize,
    bytes: Seq<u8>,
)
    requires
        one.state == ConnState::Reading,
        other.state == ConnState::Reading,
    ensures
        ({
            let input = EventView::ReadAttempted(ReadOutcomeView::Data { bytes_read, bytes });
            &&& step_spec(one, input).1 == step_spec(other, input).1
            &&& step_spec(one, input).1 matches ActionView::Acknowledge { reply, .. }
                && reply == ack_bytes()
        }),
{
}

} // verus!
