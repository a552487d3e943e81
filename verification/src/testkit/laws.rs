//! What holds of the checks.

use vstd::prelude::*;

use super::Side;
use crate::mem::{Delivery, MemConfig};

verus! {

use super::checks::{
    burst_message, bytes, cancel_safe_steps, closed_steps, filled, rebuild_steps,
    recoverable_steps, recovery_len, roundtrip_steps, too_large_steps,
};
use super::{meets, noted_after, ActionView, CheckView, EventView, StepView};
use crate::mem::held_to_limit;
use crate::mem::laws::{mutual_bursts_converge, Burst, Direction, Event};

/// A check after the given events.
pub open spec fn judged(steps: Seq<StepView>, events: Seq<EventView>) -> CheckView
    decreases events.len(),
{
    if events.len() == 0 {
        CheckView::fresh(steps)
    } else {
        judged(steps, events.drop_last()).after(events.last())
    }
}

/// The messages noted after the given events at the first of the steps.
pub open spec fn noted_by(steps: Seq<StepView>, events: Seq<EventView>) -> Seq<Seq<u8>>
    decreases events.len(),
{
    if events.len() == 0 {
        Seq::empty()
    } else {
        noted_after(
            noted_by(steps, events.drop_last()),
            steps[events.len() - 1],
            events.last(),
        )
    }
}

/// Whether the event with the given number is what its step has to see.
pub open spec fn met_at(steps: Seq<StepView>, events: Seq<EventView>, i: int) -> bool {
    meets(noted_by(steps, events.take(i)), steps[i], events[i])
}

/// Whether each of the events is what its step has to see.
pub open spec fn all_met(steps: Seq<StepView>, events: Seq<EventView>) -> bool {
    forall|i: int| 0 <= i < events.len() ==> #[trigger] met_at(steps, events, i)
}

/// A check passes exactly when every one of its steps saw what it has to see, and asks for
/// the next step as long as that is so.
pub proof fn verdict_is_exact(steps: Seq<StepView>, events: Seq<EventView>)
    requires
        events.len() <= steps.len(),
    ensures
        all_met(steps, events) ==> judged(steps, events) == (CheckView {
            steps,
            at: events.len(),
            noted: noted_by(steps, events),
            failed: false,
        }),
        !all_met(steps, events) ==> judged(steps, events).failed,
        judged(steps, events).steps == steps,
        judged(steps, events).action() == ActionView::Passed <==> (all_met(steps, events)
            && events.len() == steps.len()),
    decreases events.len(),
{
    if events.len() > 0 {
        let earlier = events.drop_last();
        verdict_is_exact(steps, earlier);
        let last = events.len() - 1;
        assert(events.take(last) =~= earlier);
        assert forall|i: int| 0 <= i < last implies #[trigger] met_at(steps, earlier, i) == met_at(
            steps,
            events,
            i,
        ) by {
            assert(earlier.take(i) =~= events.take(i));
        }
        assert(all_met(steps, events) == (all_met(steps, earlier) && met_at(steps, events, last)))
            by {
            if all_met(steps, events) {
                assert forall|i: int| 0 <= i < last implies #[trigger] met_at(
                    steps,
                    earlier,
                    i,
                ) by {
                    assert(met_at(steps, events, i));
                }
            }
            if all_met(steps, earlier) && met_at(steps, events, last) {
                assert forall|i: int| 0 <= i < events.len() implies #[trigger] met_at(
                    steps,
                    events,
                    i,
                ) by {
                    if i < last {
                        assert(met_at(steps, earlier, i));
                    }
                }
            }
        }
    }
}

/// The other endpoint.
pub open spec fn other(side: Side) -> Side {
    match side {
        Side::Left => Side::Right,
        Side::Right => Side::Left,
    }
}

/// How many messages from the given endpoint are on their way after a step that saw what it
/// has to see, given how many there were before.
pub open spec fn on_their_way(step: StepView, from: Side, before: int) -> int {
    match step {
        StepView::Build => 0,
        StepView::Send { side, .. } => if side == from {
            before + 1
        } else {
            before
        },
        StepView::Receive { side, .. } => if side == other(from) {
            before - 1
        } else {
            before
        },
        _ => before,
    }
}

/// Whether, from the step with number `n` on, no more than one message is ever on its way
/// in the same direction, given how many are before that step.
pub open spec fn one_at_a_time(
    steps: Seq<StepView>,
    n: nat,
    from_left: int,
    from_right: int,
) -> bool
    decreases steps.len() - n,
{
    &&& 0 <= from_left <= 1
    &&& 0 <= from_right <= 1
    &&& n < steps.len() ==> one_at_a_time(
        steps,
        n + 1,
        on_their_way(steps[n as int], Side::Left, from_left),
        on_their_way(steps[n as int], Side::Right, from_right),
    )
}

/// No check assumes an order of delivery: none ever has two messages on their way in the
/// same direction.
pub proof fn no_check_assumes_ordering(max: nat)
    ensures
        one_at_a_time(roundtrip_steps(), 0, 0, 0),
        one_at_a_time(closed_steps(), 0, 0, 0),
        one_at_a_time(cancel_safe_steps(), 0, 0, 0),
        one_at_a_time(too_large_steps(max), 0, 0, 0),
        one_at_a_time(recoverable_steps(max), 0, 0, 0),
        one_at_a_time(rebuild_steps(), 0, 0, 0),
{
    reveal_with_fuel(one_at_a_time, 13);
}

/// Both directions of a channel.
pub ghost struct Wires {
    /// From left to right.
    pub rightward: Direction,
    /// From right to left.
    pub leftward: Direction,
}

impl Wires {
    /// A new channel.
    pub open spec fn fresh() -> Wires {
        Wires { rightward: Direction::fresh(), leftward: Direction::fresh() }
    }

    /// The direction that the given endpoint sends into.
    pub open spec fn from(self, side: Side) -> Direction {
        match side {
            Side::Left => self.rightward,
            Side::Right => self.leftward,
        }
    }

    /// The channel with another direction for the given endpoint to send into.
    pub open spec fn with(self, side: Side, direction: Direction) -> Wires {
        match side {
            Side::Left => Wires { rightward: direction, ..self },
            Side::Right => Wires { leftward: direction, ..self },
        }
    }

    /// Does what a check asks for on a channel in memory, and says what is observed.
    /// `None` where the operation would wait for ever.
    pub open spec fn perform(self, config: MemConfig, action: ActionView) -> Option<
        (Wires, EventView),
    > {
        match action {
            ActionView::Build => Some((Wires::fresh(), EventView::Built(true))),
            ActionView::Send { side, message } => match self.from(side).after(
                config,
                Event::Start(message),
            ) {
                None => None,
                Some(started) => if started.in_flight is None {
                    Some((self.with(side, started), EventView::Sent(started.sends.last().1)))
                } else {
                    match started.after(config, Event::Deliver) {
                        None => None,
                        Some(delivered) => Some(
                            (self.with(side, delivered), EventView::Sent(delivered.sends.last().1)),
                        ),
                    }
                },
            },
            ActionView::Receive { side, within_millis } => match self.from(other(side)).after(
                config,
                Event::Receive,
            ) {
                Some(received) => Some(
                    (
                        self.with(other(side), received),
                        EventView::Received(received.receives.last()),
                    ),
                ),
                None => if within_millis is Some {
                    Some((self, EventView::Pending))
                } else {
                    None
                },
            },
            ActionView::Drop { side } => match (
                self.from(side).after(config, Event::DropSender),
                self.from(other(side)).after(config, Event::DropReceiver),
            ) {
                (Some(outgoing), Some(incoming)) => Some(
                    (self.with(side, outgoing).with(other(side), incoming), EventView::Dropped),
                ),
                _ => None,
            },
            _ => None,
        }
    }
}

/// Whether a check passes on a channel in memory within the given number of steps.
pub open spec fn passes(config: MemConfig, wires: Wires, check: CheckView, within: nat) -> bool
    decreases within,
{
    match check.action() {
        ActionView::Passed => true,
        ActionView::Failed => false,
        action => within > 0 && (wires.perform(config, action) matches Some(next) && passes(
            config,
            next.0,
            check.after(next.1),
            (within - 1) as nat,
        )),
    }
}

/// Whether a message is within the limit.
pub open spec fn fits(config: MemConfig, message: Seq<u8>) -> bool {
    held_to_limit(config, message) == Ok::<Seq<u8>, nat>(message)
}

/// Whether a direction is free: both endpoints are there, nothing is on its way, and no fault
/// is to be injected.
pub open spec fn free(direction: Direction) -> bool {
    &&& direction.queue.len() == 0
    &&& direction.sender_open
    &&& direction.receiver_open
    &&& direction.drops == 0
    &&& direction.fails == 0
    &&& direction.in_flight is None
}

/// On a free direction, a message that is sent and then received arrives intact, and leaves
/// the direction free: the rest of the check decides. The result is the channel after
/// both steps.
proof fn exchange(
    config: MemConfig,
    wires: Wires,
    check: CheckView,
    side: Side,
    message: Seq<u8>,
    within: nat,
) -> (next: Wires)
    requires
        !check.failed,
        check.at + 1 < check.steps.len(),
        check.steps[check.at as int] == (StepView::Send { side, message }),
        check.steps[check.at as int + 1] matches StepView::Receive { side: receiver, noted }
            && receiver == other(side) && (noted matches Some(wanted) ==> check.noted.push(message)
            == wanted),
        free(wires.from(side)),
        fits(config, message),
        within >= 2,
    ensures
        free(next.from(side)),
        next.from(other(side)) == wires.from(other(side)),
        passes(
            config,
            next,
            CheckView { at: check.at + 2, noted: check.noted.push(message), ..check },
            (within - 2) as nat,
        ) ==> passes(config, wires, check, within),
{
    reveal_with_fuel(passes, 3);
    let idle = wires.from(side);
    let started = idle.after(config, Event::Start(message))->0;
    let delivered = started.after(config, Event::Deliver)->0;
    assert(delivered.sends.last().1 == Ok::<(), crate::error::SendFailure>(()));
    assert(delivered.queue == seq![message]);
    let loaded = wires.with(side, delivered);
    let sent = check.after(EventView::Sent(Ok(())));
    assert(wires.perform(config, check.action()) == Some((loaded, EventView::Sent(Ok(())))));
    let received = delivered.after(config, Event::Receive)->0;
    assert(received.receives.last() == Ok::<Seq<u8>, crate::error::RecvFailure>(message));
    let next = loaded.with(side, received);
    assert(other(other(side)) == side);
    assert(loaded.perform(config, sent.action()) == Some(
        (next, EventView::Received(Ok(message))),
    ));
    next
}

/// Every in-memory channel that takes the messages of the round trip delivers them intact in
/// both directions.
pub proof fn memory_passes_roundtrip(config: MemConfig)
    requires
        fits(config, bytes("first")),
        fits(config, bytes("second")),
        fits(config, bytes("reply")),
    ensures
        passes(config, Wires::fresh(), CheckView::fresh(roundtrip_steps()), 6),
{
    let check = CheckView::fresh(roundtrip_steps());
    let wires = exchange(config, Wires::fresh(), check, Side::Left, bytes("first"), 6);
    let check = CheckView { at: 2, noted: check.noted.push(bytes("first")), ..check };
    assert(check.noted.push(bytes("second")) =~= seq![bytes("first"), bytes("second")]);
    let wires = exchange(config, wires, check, Side::Left, bytes("second"), 4);
    let check = CheckView { at: 4, noted: check.noted.push(bytes("second")), ..check };
    assert(check.noted.push(bytes("reply")) =~= seq![
        bytes("first"),
        bytes("second"),
        bytes("reply"),
    ]);
    let wires = exchange(config, wires, check, Side::Right, bytes("reply"), 2);
}

/// Every in-memory channel reports that its peer is gone.
pub proof fn memory_passes_closure(config: MemConfig)
    ensures
        passes(config, Wires::fresh(), CheckView::fresh(closed_steps()), 2),
{
    reveal_with_fuel(passes, 3);
    let check = CheckView::fresh(closed_steps());
    let dropped = Wires::fresh().perform(config, check.action())->0;
    let receiving = check.after(dropped.1);
    let received = dropped.0.perform(config, receiving.action())->0;
    assert(received.1 == EventView::Received(Err(crate::error::RecvFailure::Closed)));
}

/// On a free direction, a receive that waits only for a while goes without an outcome, and
/// leaves everything as it was.
proof fn wait(config: MemConfig, wires: Wires, check: CheckView, side: Side, within: nat)
    requires
        !check.failed,
        check.at < check.steps.len(),
        check.steps[check.at as int] matches StepView::StayPending { side: receiver, .. }
            && receiver == other(side),
        free(wires.from(side)),
        within >= 1,
    ensures
        passes(config, wires, CheckView { at: check.at + 1, ..check }, (within - 1) as nat)
            ==> passes(config, wires, check, within),
{
    reveal_with_fuel(passes, 2);
    assert(other(other(side)) == side);
    assert(wires.perform(config, check.action()) == Some((wires, EventView::Pending)));
}

/// On every in-memory channel that takes the message, receives can be abandoned time and again
/// without losing it.
pub proof fn memory_passes_cancel_safety(config: MemConfig)
    requires
        fits(config, bytes("message")),
    ensures
        passes(config, Wires::fresh(), CheckView::fresh(cancel_safe_steps()), 12),
{
    let fresh = CheckView::fresh(cancel_safe_steps());
    memory_waits(config, 10);
    let check = CheckView { at: 10, ..fresh };
    assert(check.noted.push(bytes("message")) =~= seq![bytes("message")]);
    let wires = exchange(config, Wires::fresh(), check, Side::Left, bytes("message"), 2);
}

/// The first abandoned receives of the check for cancel safety leave a new channel as it
/// was.
proof fn memory_waits(config: MemConfig, n: nat)
    requires
        n <= 10,
    ensures
        passes(
            config,
            Wires::fresh(),
            CheckView { at: n, ..CheckView::fresh(cancel_safe_steps()) },
            (12 - n) as nat,
        ) ==> passes(config, Wires::fresh(), CheckView::fresh(cancel_safe_steps()), 12),
    decreases n,
{
    if n > 0 {
        memory_waits(config, (n - 1) as nat);
        let check = CheckView { at: (n - 1) as nat, ..CheckView::fresh(cancel_safe_steps()) };
        wait(config, Wires::fresh(), check, Side::Left, (13 - n) as nat);
    }
}

/// On a free direction, a message over the limit is refused with exactly the limit, and the
/// direction stays free.
proof fn refuse(
    config: MemConfig,
    wires: Wires,
    check: CheckView,
    side: Side,
    max: usize,
    within: nat,
) -> (next: Wires)
    requires
        !check.failed,
        check.at < check.steps.len(),
        check.steps[check.at as int] matches StepView::SendRefused {
            side: sender,
            message,
            max: limit,
        } && sender == side && message.len() > max && limit == max,
        config.max_message_len == Some(max),
        free(wires.from(side)),
        within >= 1,
    ensures
        free(next.from(side)),
        next.from(other(side)) == wires.from(other(side)),
        passes(config, next, CheckView { at: check.at + 1, ..check }, (within - 1) as nat)
            ==> passes(config, wires, check, within),
{
    reveal_with_fuel(passes, 2);
    let done = wires.perform(config, check.action())->0;
    assert(done.1 == EventView::Sent(
        Err(crate::error::SendFailure::TooLarge { max: max as nat }),
    ));
    done.0
}

/// Every in-memory channel with a limit refuses a message beyond it, with exactly that limit,
/// and stays usable.
pub proof fn memory_passes_limit(config: MemConfig, max: usize)
    requires
        config.max_message_len == Some(max),
    ensures
        passes(config, Wires::fresh(), CheckView::fresh(too_large_steps(max as nat)), 1),
        passes(config, Wires::fresh(), CheckView::fresh(recoverable_steps(max as nat)), 3),
{
    let check = CheckView::fresh(too_large_steps(max as nat));
    let wires = refuse(config, Wires::fresh(), check, Side::Left, max, 1);

    let check = CheckView::fresh(recoverable_steps(max as nat));
    let wires = refuse(config, Wires::fresh(), check, Side::Left, max, 3);
    let check = CheckView { at: 1, ..check };
    let message = filled(0x42, recovery_len(max as nat));
    assert(check.noted.push(message) =~= seq![message]);
    let wires = exchange(config, wires, check, Side::Left, message, 2);
}

/// Every in-memory network whose channels take the messages passes the check of connection,
/// peer loss and reconnection.
pub proof fn memory_passes_rebuild(config: MemConfig)
    requires
        fits(config, bytes("message")),
        fits(config, bytes("again")),
    ensures
        passes(config, Wires::fresh(), CheckView::fresh(rebuild_steps()), 8),
{
    let fresh = CheckView::fresh(rebuild_steps());
    reveal_with_fuel(passes, 4);
    let check = CheckView { at: 1, ..fresh };
    assert(fresh.after(EventView::Built(true)) == check);
    assert(check.noted.push(bytes("message")) =~= seq![bytes("message")]);
    let wires = exchange(config, Wires::fresh(), check, Side::Left, bytes("message"), 7);
    let check = CheckView { at: 3, noted: seq![bytes("message")], ..fresh };
    let dropped = wires.perform(config, check.action())->0;
    assert(dropped.1 == EventView::Dropped);
    let check = CheckView { at: 4, ..check };
    let failed = dropped.0.perform(config, check.action())->0;
    assert(failed.1 == EventView::Received(Err(crate::error::RecvFailure::Closed)));
    let check = CheckView { at: 5, ..check };
    assert(failed.0.perform(config, check.action()) == Some(
        (Wires::fresh(), EventView::Built(true)),
    ));
    let check = CheckView { at: 6, ..check };
    assert(check.noted.push(bytes("again")) =~= seq![bytes("message"), bytes("again")]);
    let wires = exchange(config, Wires::fresh(), check, Side::Left, bytes("again"), 2);
}

/// The messages of a burst.
pub open spec fn burst_messages(tag: u8, burst: nat) -> Seq<Seq<u8>> {
    Seq::new(burst, |i: int| burst_message(tag, i as nat))
}

/// An exchange of bursts through an in-memory channel with confirmed delivery comes to its
/// end, whatever its length and the capacity of the queues: each direction can go on until
/// every message of its burst was received.
pub proof fn memory_passes_bursts(config: MemConfig, tag: u8, burst: nat, events: Seq<Event>)
    requires
        config.delivery == Delivery::Confirmed,
        config.max_message_len matches Some(max) ==> max >= 2,
        Burst::run(config, burst_messages(tag, burst), events) is Some,
    ensures
        ({
            let messages = burst_messages(tag, burst);
            let state = Burst::run(config, messages, events)->0;
            &&& events.len() <= 3 * burst
            &&& events.len() < 3 * burst ==> exists|event: Event|
                #[trigger] state.after(config, messages, event) is Some
            &&& events.len() == 3 * burst ==> state.direction.received == messages
        }),
{
    mutual_bursts_converge(config, burst_messages(tag, burst), events);
}

} // verus!
