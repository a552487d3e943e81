//! The conformance checks.
//!
//! A check is followed through what its caller observes. The checks are told apart by
//! what they ask for, in turn, and by exactly which observations they pass on.

use vstd::prelude::*;
use vstd::utf8::*;

use crate::error::{RecvError, SendError};
use crate::testkit::checks::{
    build_use_drop_rebuild, closed_after_peer_drop, mutual_bursts_converge, recv_is_cancel_safe,
    roundtrip_both_directions, too_large, too_large_is_recoverable, BurstReceiver, BurstSender,
    BURST_MILLIS,
};
use crate::testkit::{Action, Check, Event, Side, Step};

verus! {

use crate::error::{RecvFailure, SendFailure};
use crate::testkit::laws::{all_met, judged, met_at, noted_by, verdict_is_exact};
use crate::testkit::{meets, noted_after, ActionView, CheckView, EventView, StepView};

/// A check after the given observations.
pub open spec fn watched(check: CheckView, events: Seq<EventView>) -> CheckView
    decreases events.len(),
{
    if events.len() == 0 {
        check
    } else {
        watched(check, events.drop_last()).after(events.last())
    }
}

/// Observing goes through the check, and what it asks for next is what its caller is told.
pub proof fn check_is_told_by_its_calls(
    check: &mut Check,
    event: Event,
    asking: Check,
    action: Action,
)
    requires
        call_ensures(Check::observe, (check, event), ()),
        call_ensures(Check::next, (&asking,), action),
    ensures
        final(check)@ == old(check)@.after(event@),
        action is Build <==> asking@.action() is Build,
        action matches Action::Send { side, message } ==> asking@.action() == (ActionView::Send {
            side,
            message: message@,
        }),
        action matches Action::Receive { side, within_millis: None } ==> asking@.action() == (
        ActionView::Receive { side, within_millis: None }),
        action matches Action::Receive { side, within_millis: Some(millis) } ==> asking@.action()
            == (ActionView::Receive { side, within_millis: Some(millis as nat) }),
        action matches Action::Drop { side } ==> asking@.action() == (ActionView::Drop { side }),
        action is Passed <==> asking@.action() is Passed,
        action is Failed <==> asking@.action() is Failed,
{
}

/// What is observed is taken as it is.
pub proof fn events_are_taken_as_they_are(event: Event)
    ensures
        event matches Event::Built(built) ==> event@ == EventView::Built(built),
        (event matches Event::Sent(Ok(()))) ==> event@ == EventView::Sent(Ok(())),
        event matches Event::Sent(Err(SendError::TooLarge { max })) ==> event@ == EventView::Sent(
            Err(SendFailure::TooLarge { max: max as nat }),
        ),
        (event matches Event::Sent(Err(SendError::Closed))) ==> event@ == EventView::Sent(
            Err(SendFailure::Closed),
        ),
        (event matches Event::Sent(Err(SendError::Transport(_)))) ==> (
        event@ matches EventView::Sent(Err(SendFailure::Transport(_)))),
        event matches Event::Received(Ok(message)) ==> event@ == EventView::Received(Ok(message@)),
        (event matches Event::Received(Err(RecvError::Closed))) ==> event@ == EventView::Received(
            Err(RecvFailure::Closed),
        ),
        (event matches Event::Received(Err(RecvError::Transport(_)))) ==> (
        event@ matches EventView::Received(Err(RecvFailure::Transport(_)))),
        event is Pending ==> event@ == EventView::Pending,
        event is Dropped ==> event@ == EventView::Dropped,
{
}

/// A check goes on from a step exactly where it saw what the step is for, and otherwise has
/// failed: a build that succeeded; a send that succeeded; a refusal with exactly the limit; a
/// message, which completes the expected ones where some are expected; closure; a failure; no
/// outcome in time; a dropped endpoint. A message that was received is noted, whether or not it
/// is the expected one, and nothing else is. What is over stays as it is.
pub proof fn step_is_met_by_what_it_is_for(check: CheckView, event: EventView)
    requires
        !check.failed,
        check.at < check.steps.len(),
    ensures
        ({
            let step = check.steps[check.at as int];
            let after = check.after(event);
            let met = match step {
                StepView::Build => event == EventView::Built(true),
                StepView::Send { .. } => event == EventView::Sent(Ok(())),
                StepView::SendRefused { max, .. } => event == EventView::Sent(
                    Err(SendFailure::TooLarge { max }),
                ),
                StepView::Receive { noted: None, .. } => event matches EventView::Received(Ok(_)),
                StepView::Receive { noted: Some(wanted), .. } => event matches EventView::Received(
                    Ok(message),
                ) && check.noted.push(message) == wanted,
                StepView::ReceiveClosed { .. } => event == EventView::Received(
                    Err(RecvFailure::Closed),
                ),
                StepView::ReceiveFails { .. } => event matches EventView::Received(Err(_)),
                StepView::StayPending { .. } => event == EventView::Pending,
                StepView::Drop { .. } => event == EventView::Dropped,
            };
            &&& after.failed <==> !met
            &&& after.at == check.at + if met {
                1int
            } else {
                0int
            }
            &&& after.steps == check.steps
            &&& after.noted == match (step, event) {
                (StepView::Receive { .. }, EventView::Received(Ok(message))) => check.noted.push(
                    message,
                ),
                _ => check.noted,
            }
        }),
{
    if let EventView::Sent(Ok(done)) = event {
        assert(done == ());
    }
}

/// What a check asks for at a step: the operation that the step is about, for no longer than it
/// says; and nothing once it is over.
pub proof fn step_asks_for_what_it_is_about(check: CheckView)
    ensures
        check.action() is Failed <==> check.failed,
        check.action() is Passed <==> !check.failed && check.at >= check.steps.len(),
        !check.failed && check.at < check.steps.len() ==> match check.steps[check.at as int] {
            StepView::Build => check.action() == ActionView::Build,
            StepView::Send { side, message } => check.action() == (ActionView::Send {
                side,
                message,
            }),
            StepView::SendRefused { side, message, .. } => check.action() == (ActionView::Send {
                side,
                message,
            }),
            StepView::Receive { side, .. } => check.action() == (ActionView::Receive {
                side,
                within_millis: None,
            }),
            StepView::ReceiveClosed { side } => check.action() == (ActionView::Receive {
                side,
                within_millis: None,
            }),
            StepView::ReceiveFails { side, within_millis } => check.action() == (
            ActionView::Receive { side, within_millis: Some(within_millis) }),
            StepView::StayPending { side, millis } => check.action() == (ActionView::Receive {
                side,
                within_millis: Some(millis),
            }),
            StepView::Drop { side } => check.action() == (ActionView::Drop { side }),
        },
        check.failed || check.at >= check.steps.len() ==> forall|event: EventView|
            #[trigger] check.after(event) == check,
{
}

/// A new check stands before the first of the steps that it was made of.
pub proof fn new_check_is_made_of_its_steps(steps: Vec<Step>, check: Check)
    requires
        call_ensures(Check::new, (steps,), check),
    ensures
        check@.steps.len() == steps@.len(),
        forall|i: int| 0 <= i < steps@.len() ==> #[trigger] check@.steps[i] == steps@[i]@,
        check@.at == 0,
        check@.noted.len() == 0,
        !check@.failed,
{
}

/// A step means what it was written with.
pub proof fn steps_mean_what_they_say(step: Step)
    ensures
        step is Build ==> step@ is Build,
        step matches Step::Send { side, message } ==> step@ == (StepView::Send {
            side,
            message: message@,
        }),
        step matches Step::SendRefused { side, message, max } ==> step@ == (
        StepView::SendRefused { side, message: message@, max: max as nat }),
        step matches Step::Receive { side, noted: None } ==> step@ == (StepView::Receive {
            side,
            noted: None,
        }),
        step matches Step::Receive { side, noted: Some(noted) } ==> (
        step@ matches StepView::Receive { side: receiver, noted: Some(wanted) } && receiver == side
            && wanted.len() == noted@.len() && forall|i: int|
            0 <= i < noted@.len() ==> #[trigger] wanted[i] == noted@[i]@),
        step matches Step::ReceiveClosed { side } ==> step@ == (StepView::ReceiveClosed { side }),
        step matches Step::ReceiveFails { side, within_millis } ==> step@ == (
        StepView::ReceiveFails { side, within_millis: within_millis as nat }),
        step matches Step::StayPending { side, millis } ==> step@ == (StepView::StayPending {
            side,
            millis: millis as nat,
        }),
        step matches Step::Drop { side } ==> step@ == (StepView::Drop { side }),
{
}

/// A check of the given steps is over after as many observations, and has passed where each of
/// its steps was met.
proof fn over_after_its_steps(steps: Seq<StepView>, events: Seq<EventView>)
    ensures
        watched(CheckView::fresh(steps), events) == judged(steps, events),
        judged(steps, events).action() is Passed <==> events.len() >= steps.len() && all_met(
            steps,
            events.take(steps.len() as int),
        ),
        events.len() < steps.len() && !judged(steps, events).failed ==> judged(steps, events).at
            == events.len() && judged(steps, events).steps == steps,
    decreases events.len(),
{
    if events.len() > 0 {
        over_after_its_steps(steps, events.drop_last());
    }
    if events.len() <= steps.len() {
        verdict_is_exact(steps, events);
        if events.len() == steps.len() {
            assert(events.take(steps.len() as int) =~= events);
        }
    } else {
        let earlier = events.drop_last();
        assert(earlier.take(steps.len() as int) =~= events.take(steps.len() as int));
        if earlier.len() == steps.len() {
            verdict_is_exact(steps, earlier);
        }
        assert(judged(steps, earlier).action() is Passed || judged(steps, earlier).failed) by {
            over_for_good(steps, earlier);
        }
    }
}

/// A check is over once it saw as many observations as it has steps.
proof fn over_for_good(steps: Seq<StepView>, events: Seq<EventView>)
    requires
        events.len() >= steps.len(),
    ensures
        judged(steps, events).action() is Passed || judged(steps, events).failed,
    decreases events.len(),
{
    if events.len() == steps.len() {
        verdict_is_exact(steps, events);
    } else {
        over_for_good(steps, events.drop_last());
    }
}

/// What is noted grows by one observation.
proof fn noted_so_far(steps: Seq<StepView>, events: Seq<EventView>, i: int)
    requires
        0 <= i < events.len(),
    ensures
        noted_by(steps, events.take(0)) == Seq::<Seq<u8>>::empty(),
        noted_by(steps, events.take(i + 1)) == noted_after(
            noted_by(steps, events.take(i)),
            steps[i],
            events[i],
        ),
        met_at(steps, events, i) == meets(noted_by(steps, events.take(i)), steps[i], events[i]),
{
    assert(events.take(i + 1).drop_last() =~= events.take(i));
}

/// The round trip asks for a message from left to right, twice, and for one back, and each to be
/// received.
pub proof fn roundtrip_asks_in_turn(check: Check, events: Seq<EventView>)
    requires
        call_ensures(roundtrip_both_directions, (), check),
        !(watched(check@, events).action() is Failed),
    ensures
        ({
            let action = watched(check@, events).action();
            let n = events.len();
            &&& n == 0 ==> action == (ActionView::Send {
                side: Side::Left,
                message: encode_utf8("first"@),
            })
            &&& n == 2 ==> action == (ActionView::Send {
                side: Side::Left,
                message: encode_utf8("second"@),
            })
            &&& n == 4 ==> action == (ActionView::Send {
                side: Side::Right,
                message: encode_utf8("reply"@),
            })
            &&& n == 1 || n == 3 ==> action == (ActionView::Receive {
                side: Side::Right,
                within_millis: None,
            })
            &&& n == 5 ==> action == (ActionView::Receive {
                side: Side::Left,
                within_millis: None,
            })
            &&& n >= 6 ==> action is Passed
        }),
{
    over_after_its_steps(check@.steps, events);
    if events.len() >= 6 {
        over_for_good(check@.steps, events);
    }
}

/// The round trip passes exactly on intact delivery in both directions: every message was
/// accepted, and what was received is, in order, the first, the second and the reply.
pub proof fn roundtrip_passes_only_intact_delivery(check: Check, events: Seq<EventView>)
    requires
        call_ensures(roundtrip_both_directions, (), check),
    ensures
        watched(check@, events).action() is Passed <==> {
            &&& events.len() >= 6
            &&& events[0] == EventView::Sent(Ok(()))
            &&& events[1] == EventView::Received(Ok(encode_utf8("first"@)))
            &&& events[2] == EventView::Sent(Ok(()))
            &&& events[3] == EventView::Received(Ok(encode_utf8("second"@)))
            &&& events[4] == EventView::Sent(Ok(()))
            &&& events[5] == EventView::Received(Ok(encode_utf8("reply"@)))
        },
{
    let steps = check@.steps;
    over_after_its_steps(steps, events);
    if events.len() >= 6 {
        let six = events.take(6);
        assert forall|i: int| 0 <= i < 6 implies #[trigger] events[i] == six[i] by {}
        noted_so_far(steps, six, 0);
        noted_so_far(steps, six, 1);
        noted_so_far(steps, six, 2);
        noted_so_far(steps, six, 3);
        noted_so_far(steps, six, 4);
        noted_so_far(steps, six, 5);
        let (first, second, reply) = (
            encode_utf8("first"@),
            encode_utf8("second"@),
            encode_utf8("reply"@),
        );
        units(six[0]);
        units(six[2]);
        units(six[4]);
        let none = Seq::<Seq<u8>>::empty();
        if all_met(steps, six) {
            assert(met_at(steps, six, 0) && met_at(steps, six, 1) && met_at(steps, six, 2)
                && met_at(steps, six, 3) && met_at(steps, six, 4) && met_at(steps, six, 5));
            let a = six[1]->Received_0->Ok_0;
            let b = six[3]->Received_0->Ok_0;
            let c = six[5]->Received_0->Ok_0;
            let two = none.push(a).push(b);
            let three = two.push(c);
            assert(two == seq![first, second]);
            assert(two[0] == a && two[1] == b);
            assert(three == seq![first, second, reply]);
            assert(three[2] == c);
        }
        assert(none.push(first).push(second) =~= seq![first, second]);
        assert(seq![first, second].push(reply) =~= seq![first, second, reply]);
    }
}

/// A send that succeeded did so with nothing to say.
proof fn units(event: EventView)
    ensures
        (event matches EventView::Sent(outcome) && outcome is Ok) <==> event == EventView::Sent(
            Ok(()),
        ),
{
    if let EventView::Sent(Ok(done)) = event {
        assert(done == ());
    }
}

/// The check of closure asks for the left endpoint to be dropped and then for the right one to
/// receive, and passes exactly where that reports closure and nothing else.
pub proof fn closure_check_passes_only_on_closure(check: Check, events: Seq<EventView>)
    requires
        call_ensures(closed_after_peer_drop, (), check),
    ensures
        ({
            let action = watched(check@, events).action();
            &&& events.len() == 0 ==> action == (ActionView::Drop { side: Side::Left })
            &&& events.len() == 1 && !(action is Failed) ==> action == (ActionView::Receive {
                side: Side::Right,
                within_millis: None,
            })
            &&& action is Passed <==> {
                &&& events.len() >= 2
                &&& events[0] == EventView::Dropped
                &&& events[1] == EventView::Received(Err(RecvFailure::Closed))
            }
        }),
{
    let steps = check@.steps;
    over_after_its_steps(steps, events);
    if events.len() >= 2 {
        let two = events.take(2);
        noted_so_far(steps, two, 0);
        noted_so_far(steps, two, 1);
        if all_met(steps, two) {
            assert(met_at(steps, two, 0) && met_at(steps, two, 1));
        }
    }
}

/// The check of cancel safety asks for ten receives of five milliseconds each on the right, then
/// for a message from the left, and then for it to be received. It passes exactly where every
/// one of the ten went without an outcome, the message was accepted, and that message was
/// received.
pub proof fn cancel_check_passes_only_without_loss(check: Check, events: Seq<EventView>)
    requires
        call_ensures(recv_is_cancel_safe, (), check),
    ensures
        ({
            let action = watched(check@, events).action();
            let n = events.len();
            &&& n < 10 && !(action is Failed) ==> action == (ActionView::Receive {
                side: Side::Right,
                within_millis: Some(5),
            })
            &&& n == 10 && !(action is Failed) ==> action == (ActionView::Send {
                side: Side::Left,
                message: encode_utf8("message"@),
            })
            &&& n == 11 && !(action is Failed) ==> action == (ActionView::Receive {
                side: Side::Right,
                within_millis: None,
            })
            &&& action is Passed <==> {
                &&& n >= 12
                &&& forall|i: int| 0 <= i < 10 ==> #[trigger] events[i] == EventView::Pending
                &&& events[10] == EventView::Sent(Ok(()))
                &&& events[11] == EventView::Received(Ok(encode_utf8("message"@)))
            }
        }),
{
    let steps = check@.steps;
    over_after_its_steps(steps, events);
    if events.len() >= 12 {
        let twelve = events.take(12);
        let message = encode_utf8("message"@);
        assert forall|i: int| 0 <= i < 12 implies #[trigger] events[i] == twelve[i] by {}
        nothing_noted(steps, twelve, 10);
        noted_so_far(steps, twelve, 10);
        noted_so_far(steps, twelve, 11);
        units(twelve[10]);
        let none = Seq::<Seq<u8>>::empty();
        assert(none.push(message) =~= seq![message]);
        assert forall|i: int| 0 <= i < 10 implies #[trigger] met_at(steps, twelve, i) == (twelve[i]
            == EventView::Pending) by {
            noted_so_far(steps, twelve, i);
        }
        if all_met(steps, twelve) {
            assert(met_at(steps, twelve, 10) && met_at(steps, twelve, 11));
            let got = twelve[11]->Received_0->Ok_0;
            assert(none.push(got) == seq![message]);
            assert(none.push(got)[0] == got);
            assert forall|i: int| 0 <= i < 10 implies #[trigger] events[i]
                == EventView::Pending by {
                assert(met_at(steps, twelve, i));
            }
        }
        if (forall|i: int| 0 <= i < 10 ==> #[trigger] events[i] == EventView::Pending)
            && events[10] == EventView::Sent(Ok(())) && events[11] == EventView::Received(
            Ok(message),
        ) {
            assert forall|i: int| 0 <= i < 12 implies #[trigger] met_at(steps, twelve, i) by {
                if i < 10 {
                    assert(events[i] == EventView::Pending);
                }
            }
        }
    }
}

/// Nothing is noted while no message is asked for.
proof fn nothing_noted(steps: Seq<StepView>, events: Seq<EventView>, n: int)
    requires
        0 <= n <= events.len(),
        forall|i: int| 0 <= i < n ==> !(#[trigger] steps[i] is Receive),
    ensures
        noted_by(steps, events.take(n)) == Seq::<Seq<u8>>::empty(),
    decreases n,
{
    if n > 0 {
        nothing_noted(steps, events, n - 1);
        noted_so_far(steps, events, n - 1);
        assert(!(steps[n - 1] is Receive));
    } else {
        assert(events.take(0).len() == 0);
    }
}

/// The check of a limit asks for a message of zeros, one byte longer than the limit, to be sent,
/// and passes exactly where it was refused with exactly that limit.
pub proof fn limit_check_passes_only_on_the_limit(
    max: usize,
    check: Check,
    events: Seq<EventView>,
)
    requires
        call_ensures(too_large, (max,), check),
    ensures
        ({
            let action = watched(check@, events).action();
            &&& events.len() == 0 ==> (action matches ActionView::Send { side, message } && side
                == Side::Left && message.len() == max + 1 && forall|i: int|
                0 <= i < message.len() ==> #[trigger] message[i] == 0)
            &&& action is Passed <==> {
                &&& events.len() >= 1
                &&& events[0] == EventView::Sent(Err(SendFailure::TooLarge { max: max as nat }))
            }
        }),
{
    let steps = check@.steps;
    over_after_its_steps(steps, events);
    if events.len() >= 1 {
        let one = events.take(1);
        noted_so_far(steps, one, 0);
        if all_met(steps, one) {
            assert(met_at(steps, one, 0));
        }
    }
}

/// The check of recovery asks for a message of zeros, one byte longer than the limit, then for
/// one within the limit, of five bytes or as many as the limit allows, and then for that to be
/// received. It passes exactly where the first was refused with exactly the limit, the second
/// was accepted, and the second was received.
pub proof fn recovery_check_passes_only_on_recovery(
    max: usize,
    check: Check,
    events: Seq<EventView>,
)
    requires
        call_ensures(too_large_is_recoverable, (max,), check),
    ensures
        ({
            let action = watched(check@, events).action();
            let n = events.len();
            let small = Seq::new(
                if max < 5 {
                    max as nat
                } else {
                    5
                },
                |i: int| 0x42u8,
            );
            &&& n == 0 ==> (action matches ActionView::Send { side, message } && side == Side::Left
                && message.len() == max + 1 && forall|i: int|
                0 <= i < message.len() ==> #[trigger] message[i] == 0)
            &&& n == 1 && !(action is Failed) ==> action == (ActionView::Send {
                side: Side::Left,
                message: small,
            })
            &&& n == 2 && !(action is Failed) ==> action == (ActionView::Receive {
                side: Side::Right,
                within_millis: None,
            })
            &&& action is Passed <==> {
                &&& n >= 3
                &&& events[0] == EventView::Sent(Err(SendFailure::TooLarge { max: max as nat }))
                &&& events[1] == EventView::Sent(Ok(()))
                &&& events[2] == EventView::Received(Ok(small))
            }
        }),
{
    let steps = check@.steps;
    let small = Seq::new(
        if max < 5 {
            max as nat
        } else {
            5
        },
        |i: int| 0x42u8,
    );
    assert(steps[1] matches StepView::Send { message, .. } && message =~= small);
    over_after_its_steps(steps, events);
    if events.len() >= 3 {
        let three = events.take(3);
        assert forall|i: int| 0 <= i < 3 implies #[trigger] events[i] == three[i] by {}
        noted_so_far(steps, three, 0);
        noted_so_far(steps, three, 1);
        noted_so_far(steps, three, 2);
        units(three[1]);
        let none = Seq::<Seq<u8>>::empty();
        assert(none.push(small) =~= seq![small]);
        if all_met(steps, three) {
            assert(met_at(steps, three, 0) && met_at(steps, three, 1) && met_at(steps, three, 2));
            let got = three[2]->Received_0->Ok_0;
            assert(none.push(got) == seq![small]);
            assert(none.push(got)[0] == got);
        }
    }
}

/// The check of reconnection asks for a channel, for a message from left to right, for the right
/// endpoint to be dropped, for the left one to receive within five seconds, for another channel
/// and for another message. It passes exactly where both channels were built, both messages
/// were accepted and received intact, and the loss was noticed as a failure in time.
pub proof fn reconnection_check_passes_only_on_reconnection(check: Check, events: Seq<EventView>)
    requires
        call_ensures(build_use_drop_rebuild, (), check),
    ensures
        ({
            let action = watched(check@, events).action();
            let n = events.len();
            let met = !(action is Failed);
            &&& n == 0 || n == 5 && met ==> action is Build
            &&& n == 1 && met ==> action == (ActionView::Send {
                side: Side::Left,
                message: encode_utf8("message"@),
            })
            &&& (n == 2 || n == 7) && met ==> action == (ActionView::Receive {
                side: Side::Right,
                within_millis: None,
            })
            &&& n == 3 && met ==> action == (ActionView::Drop { side: Side::Right })
            &&& n == 4 && met ==> action == (ActionView::Receive {
                side: Side::Left,
                within_millis: Some(5000),
            })
            &&& n == 6 && met ==> action == (ActionView::Send {
                side: Side::Left,
                message: encode_utf8("again"@),
            })
            &&& action is Passed <==> {
                &&& n >= 8
                &&& events[0] == EventView::Built(true)
                &&& events[1] == EventView::Sent(Ok(()))
                &&& events[2] == EventView::Received(Ok(encode_utf8("message"@)))
                &&& events[3] == EventView::Dropped
                &&& events[4] matches EventView::Received(Err(_))
                &&& events[5] == EventView::Built(true)
                &&& events[6] == EventView::Sent(Ok(()))
                &&& events[7] == EventView::Received(Ok(encode_utf8("again"@)))
            }
        }),
{
    let steps = check@.steps;
    over_after_its_steps(steps, events);
    if events.len() >= 8 {
        let eight = events.take(8);
        assert forall|i: int| 0 <= i < 8 implies #[trigger] events[i] == eight[i] by {}
        noted_so_far(steps, eight, 0);
        noted_so_far(steps, eight, 1);
        noted_so_far(steps, eight, 2);
        noted_so_far(steps, eight, 3);
        noted_so_far(steps, eight, 4);
        noted_so_far(steps, eight, 5);
        noted_so_far(steps, eight, 6);
        noted_so_far(steps, eight, 7);
        units(eight[1]);
        units(eight[6]);
        let (message, again) = (encode_utf8("message"@), encode_utf8("again"@));
        let none = Seq::<Seq<u8>>::empty();
        assert(none.push(message) =~= seq![message]);
        assert(seq![message].push(again) =~= seq![message, again]);
        if all_met(steps, eight) {
            assert(met_at(steps, eight, 0) && met_at(steps, eight, 1) && met_at(steps, eight, 2)
                && met_at(steps, eight, 3) && met_at(steps, eight, 4) && met_at(steps, eight, 5)
                && met_at(steps, eight, 6) && met_at(steps, eight, 7));
            let a = eight[2]->Received_0->Ok_0;
            assert(none.push(a) == seq![message]);
            assert(none.push(a)[0] == a);
            let b = eight[7]->Received_0->Ok_0;
            assert(seq![message].push(b) == seq![message, again]);
            assert(seq![message].push(b)[1] == b);
        }
    }
}

/// In an exchange of bursts each endpoint has as many messages to send as to receive, and the
/// two are told apart by their tags. The exchange has five seconds.
pub proof fn bursts_are_of_the_same_length(
    burst: usize,
    ends: ((BurstSender, BurstReceiver), (BurstSender, BurstReceiver)),
    left: Option<Vec<u8>>,
    right: Option<Vec<u8>>,
    left_expects: bool,
    right_expects: bool,
)
    requires
        call_ensures(mutual_bursts_converge, (burst,), ends),
        call_ensures(BurstSender::next_message, (&(ends.0).0,), left),
        call_ensures(BurstSender::next_message, (&(ends.1).0,), right),
        call_ensures(BurstReceiver::expects_message, (&(ends.0).1,), left_expects),
        call_ensures(BurstReceiver::expects_message, (&(ends.1).1,), right_expects),
    ensures
        BURST_MILLIS == 5000,
        left is Some <==> burst > 0,
        right is Some <==> burst > 0,
        left_expects <==> burst > 0,
        right_expects <==> burst > 0,
        left matches Some(message) ==> message@ == seq![0x6cu8, 0u8],
        right matches Some(message) ==> message@ == seq![0x72u8, 0u8],
        (ends.0).0@.burst == burst,
        (ends.1).0@.burst == burst,
        (ends.0).1@.burst == burst,
        (ends.1).1@.burst == burst,
        (ends.0).0@.sent == 0,
        (ends.1).0@.sent == 0,
        (ends.0).1@.received == 0,
        (ends.1).1@.received == 0,
{
    assert(0nat % 256 == 0);
}

/// A burst goes on with the next message after one that was sent, with the same tag and the
/// next number, until it has its length; it ends at the first failure, and has failed then.
pub proof fn burst_is_sent_in_turn(
    sender: &mut BurstSender,
    before: Option<Vec<u8>>,
    result: Result<(), SendError>,
    after: Option<Vec<u8>>,
    failed: bool,
)
    requires
        call_ensures(BurstSender::next_message, (&*old(sender),), before),
        before is Some,
        call_ensures(BurstSender::sent, (sender, &result), ()),
        call_ensures(BurstSender::next_message, (&*final(sender),), after),
        call_ensures(BurstSender::failed, (&*final(sender),), failed),
    ensures
        before->0@.len() == 2,
        failed <==> result is Err,
        result is Err ==> after is None,
        result is Ok ==> {
            &&& final(sender)@.sent == old(sender)@.sent + 1
            &&& final(sender)@.burst == old(sender)@.burst
            &&& after is Some <==> final(sender)@.sent < final(sender)@.burst
        },
        after matches Some(next) ==> {
            &&& next@.len() == 2
            &&& next@[0] == before->0@[0]
            &&& next@[1] == (before->0@[1] + 1) % 256
        },
{
    let sent = old(sender)@.sent;
    assert((sent + 1) % 256 == (sent % 256 + 1) % 256) by (nonlinear_arith);
}

/// A burst is received until it has its length, whatever the messages; it ends at the first
/// failure, and has failed then.
pub proof fn burst_is_received_in_turn(
    receiver: &mut BurstReceiver,
    before: bool,
    result: Result<Vec<u8>, RecvError>,
    after: bool,
    failed: bool,
)
    requires
        call_ensures(BurstReceiver::expects_message, (&*old(receiver),), before),
        before,
        call_ensures(BurstReceiver::received, (receiver, &result), ()),
        call_ensures(BurstReceiver::expects_message, (&*final(receiver),), after),
        call_ensures(BurstReceiver::failed, (&*final(receiver),), failed),
    ensures
        failed <==> result is Err,
        result is Err ==> !after,
        result is Ok ==> {
            &&& final(receiver)@.received == old(receiver)@.received + 1
            &&& final(receiver)@.burst == old(receiver)@.burst
            &&& after <==> final(receiver)@.received < final(receiver)@.burst
        },
{
}

/// The checks can be made and gone through in every state, and for every limit that some message
/// is longer than.
pub proof fn checks_are_always_usable(
    max: usize,
    burst: usize,
    check: &mut Check,
    event: Event,
    steps: Vec<Step>,
)
    requires
        max < isize::MAX,
    ensures
        call_requires(roundtrip_both_directions, ()),
        call_requires(closed_after_peer_drop, ()),
        call_requires(recv_is_cancel_safe, ()),
        call_requires(too_large, (max,)),
        call_requires(too_large_is_recoverable, (max,)),
        call_requires(build_use_drop_rebuild, ()),
        call_requires(mutual_bursts_converge, (burst,)),
        call_requires(Check::new, (steps,)),
        call_requires(Check::next, (&*old(check),)),
        call_requires(Check::observe, (check, event)),
{
}

} // verus!
