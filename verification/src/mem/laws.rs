//! What holds of an in-memory channel as a whole.
//!
//! One direction of a channel is followed over time: the messages in its queue, the
//! injected faults, what was asked of it and what was answered. The decisions are
//! those of the parent module; the queue is any that holds a limited number of messages
//! and gives them back in the order in which it took them.

use vstd::prelude::*;

use super::{Delivery, Enqueued, MemChannel, MemConfig, BACKLOG};

verus! {

use super::{
    accept_outcome, best_effort_outcome, connect_outcome, connected, contacts, delivers,
    enqueue_outcome, gate_drops, gate_outcome, held_to_limit, injected_failure, receive_outcome,
    starts, SendStepView,
};
use crate::error::{BuildFailure, RecvFailure, SendFailure};
use crate::queue::{entries, offers, AttemptView, Contact};

/// One direction of an in-memory channel.
pub ghost struct Direction {
    /// The messages in the queue, the oldest first.
    pub queue: Seq<Seq<u8>>,
    /// Whether the sending endpoint is there.
    pub sender_open: bool,
    /// Whether the receiving endpoint is there.
    pub receiver_open: bool,
    /// How many losses are still to be injected.
    pub drops: nat,
    /// How many failures are still to be injected.
    pub fails: nat,
    /// What passed between the sends and the queue, but for what was waited for.
    pub log: Seq<Contact>,
    /// The message of the send under way, if there is one.
    pub in_flight: Option<Seq<u8>>,
    /// The messages that entered the queue, in order.
    pub accepted: Seq<Seq<u8>>,
    /// The messages that left the queue, in order.
    pub received: Seq<Seq<u8>>,
    /// The sends that were answered, in order: each message with its outcome.
    pub sends: Seq<(Seq<u8>, Result<(), SendFailure>)>,
    /// The outcomes of the receives that were answered, in order.
    pub receives: Seq<Result<Seq<u8>, RecvFailure>>,
}

/// What happens in one direction of an in-memory channel.
pub ghost enum Event {
    /// A send starts.
    Start(Seq<u8>),
    /// The send under way comes to its delivery, after its latency.
    Deliver,
    /// The send under way does not get through in time.
    TimeOut,
    /// The send under way is abandoned.
    AbandonSend,
    /// A receive takes a message, or learns that there will be none.
    Receive,
    /// A receive is abandoned while it waits.
    AbandonReceive,
    /// The sending endpoint goes.
    DropSender,
    /// The receiving endpoint goes.
    DropReceiver,
    /// The number of losses to inject is set.
    DropNext(nat),
    /// The number of failures to inject is set.
    FailNext(nat),
}

impl Direction {
    /// A new direction.
    pub open spec fn fresh() -> Direction {
        Direction {
            queue: Seq::empty(),
            sender_open: true,
            receiver_open: true,
            drops: 0,
            fails: 0,
            log: Seq::empty(),
            in_flight: None,
            accepted: Seq::empty(),
            received: Seq::empty(),
            sends: Seq::empty(),
            receives: Seq::empty(),
        }
    }

    /// Answers a send.
    pub open spec fn answer(self, message: Seq<u8>, outcome: Result<(), SendFailure>) -> Direction {
        Direction { in_flight: None, sends: self.sends.push((message, outcome)), ..self }
    }

    /// Puts a message into the queue.
    pub open spec fn enqueue(self, message: Seq<u8>) -> Direction {
        Direction {
            queue: self.queue.push(message),
            accepted: self.accepted.push(message),
            ..self
        }
    }

    /// Whether the queue has room for a message.
    pub open spec fn has_room(self, config: MemConfig) -> bool {
        self.queue.len() < config.queue_capacity()
    }

    /// What becomes of a message that the queue is asked to take without waiting.
    pub open spec fn attempt(self, config: MemConfig) -> AttemptView {
        if !self.receiver_open {
            AttemptView::Closed
        } else if self.has_room(config) {
            AttemptView::Entered
        } else {
            AttemptView::Full
        }
    }

    /// Starts a send.
    pub open spec fn start(self, config: MemConfig, message: Seq<u8>) -> Direction {
        match held_to_limit(config, message) {
            Err(max) => self.answer(message, Err(SendFailure::TooLarge { max })),
            Ok(message) => if self.fails > 0 {
                (Direction { fails: (self.fails - 1) as nat, ..self }).answer(
                    message,
                    Err(injected_failure()),
                )
            } else {
                Direction { in_flight: Some(message), ..self }
            },
        }
    }

    /// Delivers a message, or `None` where the delivery has to wait.
    pub open spec fn deliver(self, config: MemConfig, message: Seq<u8>) -> Option<Direction> {
        match config.delivery {
            Delivery::Confirmed => if !self.receiver_open {
                Some(self.answer(message, enqueue_outcome(Enqueued::Closed)))
            } else if self.has_room(config) {
                Some(self.enqueue(message).answer(message, enqueue_outcome(Enqueued::Accepted)))
            } else {
                None
            },
            Delivery::BestEffort => {
                let closed = !self.receiver_open;
                let attempt = self.attempt(config);
                let after = Direction {
                    drops: gate_drops(closed, self.drops),
                    log: self.log + contacts(message, self.drops, closed, attempt),
                    ..self
                };
                let entered = if gate_outcome(closed, self.drops) is None && attempt
                    == AttemptView::Entered {
                    after.enqueue(message)
                } else {
                    after
                };
                Some(entered.answer(message, best_effort_outcome(closed, self.drops, attempt)))
            },
        }
    }

    /// Takes the oldest message from the queue, or learns that there will be none. `None`
    /// where the receive has to wait.
    pub open spec fn receive(self) -> Option<Direction> {
        if self.queue.len() > 0 {
            Some(
                Direction {
                    queue: self.queue.drop_first(),
                    received: self.received.push(self.queue[0]),
                    receives: self.receives.push(receive_outcome(Some(self.queue[0]))),
                    ..self
                },
            )
        } else if !self.sender_open {
            Some(Direction { receives: self.receives.push(receive_outcome(None)), ..self })
        } else {
            None
        }
    }

    /// The direction after an event, or `None` where the event cannot happen.
    pub open spec fn after(self, config: MemConfig, event: Event) -> Option<Direction> {
        match event {
            Event::Start(message) => if self.sender_open && self.in_flight is None {
                Some(self.start(config, message))
            } else {
                None
            },
            Event::Deliver => match self.in_flight {
                Some(message) => self.deliver(config, message),
                None => None,
            },
            Event::TimeOut => match self.in_flight {
                Some(message) => if config.delivery == Delivery::Confirmed
                    && config.send_timeout is Some {
                    Some(self.answer(message, enqueue_outcome(Enqueued::TimedOut)))
                } else {
                    None
                },
                None => None,
            },
            Event::AbandonSend => if self.in_flight is Some {
                Some(Direction { in_flight: None, ..self })
            } else {
                None
            },
            Event::Receive => if self.receiver_open {
                self.receive()
            } else {
                None
            },
            Event::AbandonReceive => if self.receiver_open {
                Some(self)
            } else {
                None
            },
            Event::DropSender => if self.sender_open && self.in_flight is None {
                Some(Direction { sender_open: false, ..self })
            } else {
                None
            },
            Event::DropReceiver => if self.receiver_open {
                Some(Direction { receiver_open: false, ..self })
            } else {
                None
            },
            Event::DropNext(count) => Some(Direction { drops: count, ..self }),
            Event::FailNext(count) => Some(Direction { fails: count, ..self }),
        }
    }

    /// The direction after the given events, or `None` where one of them cannot happen
    /// when its turn comes.
    pub open spec fn run_on(self, config: MemConfig, events: Seq<Event>) -> Option<Direction>
        decreases events.len(),
    {
        if events.len() == 0 {
            Some(self)
        } else {
            match self.run_on(config, events.drop_last()) {
                Some(state) => state.after(config, events.last()),
                None => None,
            }
        }
    }

    /// A new direction after the given events, or `None` where one of them cannot happen
    /// when its turn comes.
    pub open spec fn run(config: MemConfig, events: Seq<Event>) -> Option<Direction> {
        Direction::fresh().run_on(config, events)
    }
}

/// The messages of the sends that were answered with success, in order.
pub open spec fn confirmed(sends: Seq<(Seq<u8>, Result<(), SendFailure>)>) -> Seq<Seq<u8>>
    decreases sends.len(),
{
    if sends.len() == 0 {
        Seq::empty()
    } else {
        let earlier = confirmed(sends.drop_last());
        if sends.last().1 is Ok {
            earlier.push(sends.last().0)
        } else {
            earlier
        }
    }
}

/// Whether `part` can be had from `whole` by leaving elements out.
pub open spec fn thinned<A>(part: Seq<A>, whole: Seq<A>) -> bool
    decreases whole.len(),
{
    if part.len() == 0 {
        true
    } else if whole.len() == 0 {
        false
    } else {
        ||| thinned(part, whole.drop_last())
        ||| part.last() == whole.last() && thinned(part.drop_last(), whole.drop_last())
    }
}

/// The messages of the receives that were answered with one, in order.
pub open spec fn obtained(receives: Seq<Result<Seq<u8>, RecvFailure>>) -> Seq<Seq<u8>>
    decreases receives.len(),
{
    if receives.len() == 0 {
        Seq::empty()
    } else {
        let earlier = obtained(receives.drop_last());
        match receives.last() {
            Ok(message) => earlier.push(message),
            Err(_) => earlier,
        }
    }
}

/// Messages arrive intact and in the order in which they entered the queue, and the
/// queue never holds more than its capacity: what was received, followed by what is in
/// the queue, is what entered it, and what was received is what the receives were
/// answered with.
pub proof fn delivery_is_fifo(config: MemConfig, events: Seq<Event>)
    requires
        Direction::run(config, events) is Some,
    ensures
        ({
            let state = Direction::run(config, events)->0;
            &&& state.accepted == state.received + state.queue
            &&& state.received == obtained(state.receives)
            &&& state.queue.len() <= config.queue_capacity()
        }),
    decreases events.len(),
{
    if events.len() > 0 {
        delivery_is_fifo(config, events.drop_last());
        let before = Direction::run(config, events.drop_last())->0;
        let after = Direction::run(config, events)->0;
        if events.last() is Receive {
            assert(after.receives.drop_last() == before.receives);
            if before.queue.len() > 0 {
                assert(before.received + before.queue == after.received + after.queue);
            }
        } else {
            assert(after.receives == before.receives);
            if after.queue != before.queue {
                assert(after.accepted == after.received + after.queue);
            }
        }
    }
}

/// With confirmed delivery, the messages that entered the queue are those whose send was
/// answered with success, in order: success is the promise that the message is in the
/// peer's queue, and a failed send leaves no trace there.
pub proof fn confirmed_delivery_is_exact(config: MemConfig, events: Seq<Event>)
    requires
        config.delivery == Delivery::Confirmed,
        Direction::run(config, events) is Some,
    ensures
        ({
            let state = Direction::run(config, events)->0;
            state.accepted == confirmed(state.sends)
        }),
    decreases events.len(),
{
    if events.len() > 0 {
        confirmed_delivery_is_exact(config, events.drop_last());
        let before = Direction::run(config, events.drop_last())->0;
        let after = Direction::run(config, events)->0;
        if after.sends != before.sends {
            assert(after.sends.drop_last() == before.sends);
        }
    }
}

/// With confirmed delivery, what is received is what was sent: the messages whose send was
/// answered with success are those that the receives were answered with, followed by those
/// that are still in the queue, intact and in order.
pub proof fn what_was_sent_is_received(config: MemConfig, events: Seq<Event>)
    requires
        config.delivery == Delivery::Confirmed,
        Direction::run(config, events) is Some,
    ensures
        ({
            let state = Direction::run(config, events)->0;
            confirmed(state.sends) == obtained(state.receives) + state.queue
        }),
{
    delivery_is_fifo(config, events);
    confirmed_delivery_is_exact(config, events);
}

/// With either delivery, every message that entered the queue is one whose send was
/// answered with success: best-effort delivery may lose messages, but it neither makes
/// up nor reorders any.
pub proof fn loss_is_the_only_deviation(config: MemConfig, events: Seq<Event>)
    requires
        Direction::run(config, events) is Some,
    ensures
        ({
            let state = Direction::run(config, events)->0;
            thinned(state.accepted, confirmed(state.sends))
        }),
    decreases events.len(),
{
    if events.len() > 0 {
        loss_is_the_only_deviation(config, events.drop_last());
        let before = Direction::run(config, events.drop_last())->0;
        let after = Direction::run(config, events)->0;
        if after.sends != before.sends {
            assert(after.sends.drop_last() == before.sends);
            let longer = confirmed(after.sends);
            if after.sends.last().1 is Ok {
                assert(longer.drop_last() == confirmed(before.sends));
                if after.accepted != before.accepted {
                    assert(after.accepted.drop_last() == before.accepted);
                }
            }
        }
    }
}

/// Nothing over the limit ever enters the queue.
pub proof fn limit_is_kept(config: MemConfig, events: Seq<Event>, max: usize)
    requires
        config.max_message_len == Some(max),
        Direction::run(config, events) is Some,
    ensures
        ({
            let state = Direction::run(config, events)->0;
            &&& forall|i: int|
                0 <= i < state.accepted.len() ==> (#[trigger] state.accepted[i]).len() <= max
            &&& state.in_flight matches Some(message) ==> message.len() <= max
        }),
    decreases events.len(),
{
    if events.len() > 0 {
        limit_is_kept(config, events.drop_last(), max);
    }
}

/// A direction starts a send as the channel decides: a send that the decision ends before its
/// delivery is answered with the same outcome, and nothing is offered to the queue; otherwise
/// the message on its way is the one that was to be sent, and it waits for its latency or is
/// delivered at once. The faults still to be injected are the same.
pub proof fn start_follows_decision(
    config: MemConfig,
    state: Direction,
    message: Seq<u8>,
    step: SendStepView,
    drops: nat,
    fails: nat,
    log: Seq<Contact>,
)
    requires
        state.in_flight is None,
        starts(
            config,
            held_to_limit(config, message),
            step,
            (state.drops, drops),
            (state.fails, fails),
            (state.log, log),
        ),
    ensures
        ({
            let after = state.start(config, message);
            &&& after.fails == fails
            &&& match step {
                SendStepView::Sleep { message: slept, .. } => {
                    &&& slept == message
                    &&& after.in_flight == Some(message)
                    &&& drops == after.drops
                    &&& log == after.log
                },
                _ => if after.in_flight is Some {
                    &&& after.in_flight == Some(message)
                    &&& delivers(config, message, step, (after.drops, drops), (after.log, log))
                } else {
                    &&& step == SendStepView::Finished(after.sends.last().1)
                    &&& after.sends == state.sends.push((message, after.sends.last().1))
                    &&& drops == after.drops
                    &&& log == after.log
                },
            }
        }),
{
}

/// The channel decides as a direction delivers. With confirmed delivery the queue is offered
/// nothing before it is asked to take the very message, and what becomes of it in the
/// direction is what the send is finished with. With best-effort delivery the queue gave
/// answers, and where these are the direction's, so are the outcome, what the queue was
/// offered, and the losses still to be injected.
pub proof fn delivery_follows_decision(
    config: MemConfig,
    state: Direction,
    message: Seq<u8>,
    step: SendStepView,
    drops: nat,
    log: Seq<Contact>,
)
    requires
        state.in_flight == Some(message),
        delivers(config, message, step, (state.drops, drops), (state.log, log)),
    ensures
        match config.delivery {
            Delivery::Confirmed => {
                &&& step == SendStepView::Enqueue { message, timeout: config.send_timeout }
                &&& drops == state.drops
                &&& log == state.log
                &&& state.deliver(config, message) == if !state.receiver_open {
                    Some(state.answer(message, enqueue_outcome(Enqueued::Closed)))
                } else if state.has_room(config) {
                    Some(
                        state.enqueue(message).answer(
                            message,
                            enqueue_outcome(Enqueued::Accepted),
                        ),
                    )
                } else {
                    None
                }
            },
            Delivery::BestEffort => exists|closed: bool, attempt: AttemptView|
                {
                    &&& log == state.log + #[trigger] contacts(
                        message,
                        state.drops,
                        closed,
                        attempt,
                    )
                    &&& answers_as(state, config, closed, attempt) ==> {
                        &&& state.deliver(config, message) matches Some(after)
                        &&& step == SendStepView::Finished(after.sends.last().1)
                        &&& drops == after.drops
                        &&& log == after.log
                    }
                },
        },
{
    if config.delivery == Delivery::BestEffort {
        let (closed, attempt) = choose|closed: bool, attempt: AttemptView|
            {
                &&& log == state.log + #[trigger] contacts(message, state.drops, closed, attempt)
                &&& step == SendStepView::Finished(
                    best_effort_outcome(closed, state.drops, attempt),
                )
                &&& drops == gate_drops(closed, state.drops)
            };
        assert(log == state.log + contacts(message, state.drops, closed, attempt));
        assert(answers_as(state, config, closed, attempt) ==> {
            &&& state.deliver(config, message) matches Some(after)
            &&& step == SendStepView::Finished(after.sends.last().1)
            &&& drops == after.drops
            &&& log == after.log
        });
    }
}

/// Whether the answers that a best-effort delivery met are those of a direction.
pub open spec fn answers_as(
    state: Direction,
    config: MemConfig,
    closed: bool,
    attempt: AttemptView,
) -> bool {
    &&& closed == !state.receiver_open
    &&& gate_outcome(closed, state.drops) is None ==> attempt == state.attempt(config)
}

/// With best-effort delivery, exactly those messages enter the queue that it was offered and
/// took: nothing enters that was not offered, and a message that was lost to an injected
/// fault, failed or refused was not.
pub proof fn only_offers_enter(config: MemConfig, events: Seq<Event>)
    requires
        config.delivery == Delivery::BestEffort,
        Direction::run(config, events) is Some,
    ensures
        ({
            let state = Direction::run(config, events)->0;
            &&& state.accepted == entries(state.log)
            &&& thinned(entries(state.log), offers(state.log))
        }),
    decreases events.len(),
{
    let after = Direction::run(config, events)->0;
    entries_are_offers(after.log);
    if events.len() > 0 {
        only_offers_enter(config, events.drop_last());
        let before = Direction::run(config, events.drop_last())->0;
        if events.last() is Deliver {
            let message = before.in_flight->0;
            let closed = !before.receiver_open;
            contacts_are_logged(before.log, message, before.drops, closed, before.attempt(config));
        }
    }
}

/// The messages that entered are among those that were offered.
proof fn entries_are_offers(log: Seq<Contact>)
    ensures
        thinned(entries(log), offers(log)),
    decreases log.len(),
{
    if log.len() > 0 {
        entries_are_offers(log.drop_last());
        if log.last() is Offered {
            assert(offers(log).drop_last() =~= offers(log.drop_last()));
            if entries(log).len() > entries(log.drop_last()).len() {
                assert(entries(log).drop_last() =~= entries(log.drop_last()));
            }
        }
    }
}

/// What a best-effort delivery adds to the offers and to the entries.
proof fn contacts_are_logged(
    log: Seq<Contact>,
    message: Seq<u8>,
    drops: nat,
    closed: bool,
    attempt: AttemptView,
)
    ensures
        ({
            let tried = gate_outcome(closed, drops) is None;
            let longer = log + contacts(message, drops, closed, attempt);
            &&& offers(longer) == if tried {
                offers(log).push(message)
            } else {
                offers(log)
            }
            &&& entries(longer) == if tried && attempt == AttemptView::Entered {
                entries(log).push(message)
            } else {
                entries(log)
            }
        }),
{
    let longer = log + contacts(message, drops, closed, attempt);
    reveal_with_fuel(offers, 3);
    reveal_with_fuel(entries, 3);
    let asked = log.push(Contact::Asked(closed));
    assert(asked.drop_last() =~= log);
    if gate_outcome(closed, drops) is None {
        assert(longer.drop_last() =~= asked);
    } else {
        assert(longer =~= asked);
    }
}

/// Whether a send of a message within the limit, with no failure to inject, starts as told at
/// a peer that the queue says is there.
pub open spec fn sends_to_peer(
    config: MemConfig,
    message: Seq<u8>,
    step: SendStepView,
    drops: (nat, nat),
    log: (Seq<Contact>, Seq<Contact>),
) -> bool {
    &&& held_to_limit(config, message) == Ok::<Seq<u8>, nat>(message)
    &&& starts(config, held_to_limit(config, message), step, drops, (0, 0), log)
    &&& log.1[log.0.len() as int] == Contact::Asked(false)
}

/// After `count` losses were to be injected, exactly the next `count` best-effort sends to a
/// peer that is there offer nothing to its queue and still succeed; each one after them
/// offers its message, once. `steps` are the steps that the sends start with, and `drops` and
/// `logs` what there was before each of them and after the last.
pub proof fn exactly_the_next_are_not_offered(
    config: MemConfig,
    messages: Seq<Seq<u8>>,
    steps: Seq<SendStepView>,
    drops: Seq<nat>,
    logs: Seq<Seq<Contact>>,
)
    requires
        config.delivery == Delivery::BestEffort,
        config.latency is None,
        steps.len() == messages.len(),
        drops.len() == messages.len() + 1,
        logs.len() == messages.len() + 1,
        forall|i: int|
            0 <= i < messages.len() ==> sends_to_peer(
                config,
                messages[i],
                #[trigger] steps[i],
                (drops[i], drops[i + 1]),
                (logs[i], logs[i + 1]),
            ),
    ensures
        ({
            let n = messages.len();
            let count = drops[0];
            let lost = if count < n {
                count
            } else {
                n
            };
            &&& drops[n as int] == count - lost
            &&& offers(logs[n as int]) == offers(logs[0]) + messages.skip(lost as int)
            &&& forall|i: int|
                0 <= i < lost ==> #[trigger] steps[i] == SendStepView::Finished(Ok(()))
        }),
    decreases messages.len(),
{
    let n = messages.len() as int;
    if n == 0 {
        assert(offers(logs[0]) + messages.skip(0) =~= offers(logs[0]));
    } else {
        let fewer = messages.drop_last();
        let (started, drops_before, logs_before) = (
            steps.drop_last(),
            drops.drop_last(),
            logs.drop_last(),
        );
        assert forall|i: int| 0 <= i < fewer.len() implies sends_to_peer(
            config,
            fewer[i],
            #[trigger] started[i],
            (drops_before[i], drops_before[i + 1]),
            (logs_before[i], logs_before[i + 1]),
        ) by {
            assert(steps[i] == started[i]);
        }
        exactly_the_next_are_not_offered(config, fewer, started, drops_before, logs_before);
        let last = n - 1;
        let message = messages[last];
        assert(sends_to_peer(
            config,
            message,
            steps[last],
            (drops[last], drops[n]),
            (logs[last], logs[n]),
        ));
        let (closed, attempt) = choose|closed: bool, attempt: AttemptView|
            {
                &&& logs[n] == logs[last] + #[trigger] contacts(
                    message,
                    drops[last],
                    closed,
                    attempt,
                )
                &&& steps[last] == SendStepView::Finished(
                    best_effort_outcome(closed, drops[last], attempt),
                )
                &&& drops[n] == gate_drops(closed, drops[last])
            };
        assert(logs[n][logs[last].len() as int] == Contact::Asked(closed));
        contacts_are_logged(logs[last], message, drops[last], closed, attempt);
        let count = drops[0] as int;
        let kept = messages.skip(
            if count < n {
                count
            } else {
                n
            },
        );
        assert forall|i: int| 0 <= i < last implies started[i] == #[trigger] steps[i] by {}
        if count < n {
            assert(kept =~= fewer.skip(count).push(message));
            assert(offers(logs[n]) =~= offers(logs[0]) + kept);
        } else {
            assert(fewer.skip(last) =~= Seq::<Seq<u8>>::empty());
            assert(offers(logs[n]) =~= offers(logs[0]) + kept);
        }
    }
}

/// A message over the limit is refused with the limit, and the refusal leaves the
/// channel as it was: nothing but the answer is new.
pub proof fn too_large_is_recoverable(
    config: MemConfig,
    state: Direction,
    message: Seq<u8>,
    max: usize,
)
    requires
        config.max_message_len == Some(max),
        message.len() > max,
        state.in_flight is None,
    ensures
        state.start(config, message) == (Direction {
            sends: state.sends.push((message, Err(SendFailure::TooLarge { max: max as nat }))),
            ..state
        }),
{
}

/// Once the receiving endpoint is gone, every delivery is answered with closure, whatever
/// losses are to be injected, and with either delivery.
pub proof fn closure_is_reported(config: MemConfig, state: Direction, message: Seq<u8>)
    requires
        !state.receiver_open,
        state.in_flight == Some(message),
    ensures
        state.deliver(config, message) == Some(
            Direction {
                in_flight: None,
                sends: state.sends.push((message, Err(SendFailure::Closed))),
                log: match config.delivery {
                    Delivery::Confirmed => state.log,
                    Delivery::BestEffort => state.log + seq![Contact::Asked(true)],
                },
                ..state
            },
        ),
{
}

/// Confirmed delivery ignores injected loss: it goes the same way with any number of
/// losses to inject, and does not use any of them up.
pub proof fn confirmed_delivery_ignores_injected_loss(
    config: MemConfig,
    state: Direction,
    message: Seq<u8>,
    drops: nat,
)
    requires
        config.delivery == Delivery::Confirmed,
    ensures
        (Direction { drops, ..state }).deliver(config, message) == match state.deliver(
            config,
            message,
        ) {
            Some(after) => Some(Direction { drops, ..after }),
            None => None,
        },
        state.deliver(config, message) matches Some(after) ==> after.drops == state.drops,
{
}

/// The next sends within the limit fail as often as was asked for, and a send that is made
/// to fail puts nothing into the queue.
pub proof fn injected_failures_are_observable(config: MemConfig, state: Direction, message: Seq<u8>)
    requires
        held_to_limit(config, message) == Ok::<Seq<u8>, nat>(message),
        state.fails > 0,
        state.in_flight is None,
    ensures
        state.start(config, message) == (Direction {
            fails: (state.fails - 1) as nat,
            sends: state.sends.push((message, Err(injected_failure()))),
            ..state
        }),
{
}

/// With best-effort delivery to a peer that is there, a delivery succeeds whatever happens
/// to the message; it is lost where a loss is to be injected, which uses that loss up and
/// offers the queue nothing, and where the queue is full.
pub proof fn best_effort_loss_is_silent(config: MemConfig, state: Direction, message: Seq<u8>)
    requires
        config.delivery == Delivery::BestEffort,
        state.receiver_open,
        state.in_flight == Some(message),
    ensures
        ({
            let answered = Direction {
                in_flight: None,
                sends: state.sends.push((message, Ok(()))),
                ..state
            };
            let asked = state.log + seq![Contact::Asked(false)];
            state.deliver(config, message) == Some(
                if state.drops > 0 {
                    Direction { drops: (state.drops - 1) as nat, log: asked, ..answered }
                } else if state.has_room(config) {
                    (Direction {
                        log: asked.push(Contact::Offered(message, AttemptView::Entered)),
                        ..answered
                    }).enqueue(message)
                } else {
                    Direction {
                        log: asked.push(Contact::Offered(message, AttemptView::Full)),
                        ..answered
                    }
                },
            )
        }),
{
    let after = state.deliver(config, message)->0;
    let asked = state.log + seq![Contact::Asked(false)];
    let attempt = state.attempt(config);
    if state.drops == 0 {
        assert(after.log =~= asked.push(Contact::Offered(message, attempt)));
    }
}

/// After the sending endpoint is gone, the messages in the queue can still be received; only
/// then closure is reported.
pub proof fn closed_after_peer_drop(state: Direction)
    requires
        !state.sender_open,
    ensures
        state.receive() matches Some(after) && after.receives == state.receives.push(
            if state.queue.len() > 0 {
                Ok::<Seq<u8>, RecvFailure>(state.queue[0])
            } else {
                Err(RecvFailure::Closed)
            },
        ),
{
}

/// A receive fails with closure only, and only at the end: where one has failed, the sending
/// endpoint is gone, every message that entered the queue was received, and every later
/// receive has failed too.
pub proof fn closure_comes_last(config: MemConfig, events: Seq<Event>, i: int)
    requires
        Direction::run(config, events) is Some,
        0 <= i < (Direction::run(config, events)->0).receives.len(),
        (Direction::run(config, events)->0).receives[i] is Err,
    ensures
        ({
            let state = Direction::run(config, events)->0;
            &&& !state.sender_open
            &&& state.queue.len() == 0
            &&& state.accepted == obtained(state.receives)
            &&& forall|j: int|
                i <= j < state.receives.len() ==> #[trigger] state.receives[j] == Err::<
                    Seq<u8>,
                    RecvFailure,
                >(RecvFailure::Closed)
        }),
    decreases events.len(),
{
    let after = Direction::run(config, events)->0;
    let earlier = events.drop_last();
    let before = Direction::run(config, earlier)->0;
    gone_sender_sends_nothing(config, earlier);
    if i < before.receives.len() {
        if events.last() is Receive {
            assert(after.receives[i] == before.receives[i]);
        }
        closure_comes_last(config, earlier, i);
    }
    delivery_is_fifo(config, events);
    assert(after.received + after.queue =~= after.received);
}

/// Nothing is on its way from a sending endpoint that is gone.
proof fn gone_sender_sends_nothing(config: MemConfig, events: Seq<Event>)
    requires
        Direction::run(config, events) is Some,
    ensures
        ({
            let state = Direction::run(config, events)->0;
            !state.sender_open ==> state.in_flight is None
        }),
    decreases events.len(),
{
    if events.len() > 0 {
        gone_sender_sends_nothing(config, events.drop_last());
    }
}

/// An abandoned receive takes no message.
pub proof fn abandoned_receive_takes_nothing(config: MemConfig, state: Direction)
    requires
        state.receiver_open,
    ensures
        state.after(config, Event::AbandonReceive) == Some(state),
{
}

/// How many deliveries there are among the events.
pub open spec fn deliveries(events: Seq<Event>) -> nat
    decreases events.len(),
{
    if events.len() == 0 {
        0
    } else {
        deliveries(events.drop_last()) + if events.last() is Deliver {
            1nat
        } else {
            0nat
        }
    }
}

/// Once the number of losses to inject is set, exactly as many of the next best-effort
/// deliveries to a peer that is there are lost, whatever number was left before, and
/// whatever else happens in between: each succeeds, and is not even offered to the queue. The
/// deliveries after them are up to the queue again.
pub proof fn exactly_the_next_are_lost(
    config: MemConfig,
    state: Direction,
    count: nat,
    events: Seq<Event>,
)
    requires
        config.delivery == Delivery::BestEffort,
        state.receiver_open,
        forall|i: int|
            0 <= i < events.len() ==> !(#[trigger] events[i] is DropNext)
                && !(events[i] is DropReceiver),
        state.after(config, Event::DropNext(count)) matches Some(set) && set.run_on(
            config,
            events,
        ) is Some,
    ensures
        ({
            let set = state.after(config, Event::DropNext(count))->0;
            let after = set.run_on(config, events)->0;
            &&& after.receiver_open
            &&& after.drops == if deliveries(events) < count {
                (count - deliveries(events)) as nat
            } else {
                0
            }
            &&& deliveries(events) <= count ==> after.accepted == state.accepted && offers(
                after.log,
            ) == offers(state.log)
            &&& events.len() > 0 && events.last() is Deliver ==> {
                let before = set.run_on(config, events.drop_last())->0;
                &&& after.sends == before.sends.push((before.in_flight->0, Ok(())))
                &&& after.accepted == if deliveries(events) > count && before.has_room(config) {
                    before.accepted.push(before.in_flight->0)
                } else {
                    before.accepted
                }
            }
        }),
    decreases events.len(),
{
    if events.len() > 0 {
        let earlier = events.drop_last();
        assert forall|i: int| 0 <= i < earlier.len() implies !(#[trigger] earlier[i] is DropNext)
            && !(earlier[i] is DropReceiver) by {
            assert(earlier[i] == events[i]);
        }
        assert(!(events[events.len() - 1] is DropNext));
        exactly_the_next_are_lost(config, state, count, earlier);
        let before = (state.after(config, Event::DropNext(count))->0).run_on(config, earlier)->0;
        if events.last() is Deliver {
            let message = before.in_flight->0;
            contacts_are_logged(before.log, message, before.drops, false, before.attempt(config));
        }
    }
}

/// A network of one listener and its builders over time.
pub ghost struct Network {
    /// The endpoints that wait for the listener, the oldest first.
    pub waiting: Seq<MemChannel>,
    /// Whether a builder is there.
    pub builder_open: bool,
    /// Whether the listener is there.
    pub listener_open: bool,
    /// The endpoints of the channels that were handed over, in order: the local and the remote
    /// one.
    pub handed: Seq<(MemChannel, MemChannel)>,
    /// The outcomes of the builds, in order.
    pub builds: Seq<Result<MemChannel, BuildFailure>>,
    /// The outcomes of the acceptances, in order.
    pub accepts: Seq<Result<MemChannel, BuildFailure>>,
}

/// What happens in a network.
pub ghost enum NetworkEvent {
    /// A build that made these two endpoints comes to its end.
    Build(MemChannel, MemChannel),
    /// An acceptance comes to its end.
    Accept,
    /// The last builder goes.
    DropBuilders,
    /// The listener goes.
    DropListener,
}

impl Network {
    /// A new network.
    pub open spec fn fresh() -> Network {
        Network {
            waiting: Seq::empty(),
            builder_open: true,
            listener_open: true,
            handed: Seq::empty(),
            builds: Seq::empty(),
            accepts: Seq::empty(),
        }
    }

    /// The network after an event, or `None` where the event cannot happen: a build makes
    /// connected endpoints and waits for a place in the backlog, and an acceptance waits for
    /// a channel as long as there is a builder.
    pub open spec fn after(self, event: NetworkEvent) -> Option<Network> {
        match event {
            NetworkEvent::Build(local, remote) => if !self.builder_open || !connected(
                local,
                remote,
            ) {
                None
            } else if !self.listener_open {
                Some(Network { builds: self.builds.push(connect_outcome(local, false)), ..self })
            } else if self.waiting.len() < BACKLOG {
                Some(
                    Network {
                        waiting: self.waiting.push(remote),
                        handed: self.handed.push((local, remote)),
                        builds: self.builds.push(connect_outcome(local, true)),
                        ..self
                    },
                )
            } else {
                None
            },
            NetworkEvent::Accept => if !self.listener_open {
                None
            } else if self.waiting.len() > 0 {
                Some(
                    Network {
                        waiting: self.waiting.drop_first(),
                        accepts: self.accepts.push(accept_outcome(Some(self.waiting[0]))),
                        ..self
                    },
                )
            } else if !self.builder_open {
                Some(Network { accepts: self.accepts.push(accept_outcome(None)), ..self })
            } else {
                None
            },
            NetworkEvent::DropBuilders => if self.builder_open {
                Some(Network { builder_open: false, ..self })
            } else {
                None
            },
            NetworkEvent::DropListener => if self.listener_open {
                Some(Network { listener_open: false, ..self })
            } else {
                None
            },
        }
    }

    /// A new network after the given events, or `None` where one of them cannot happen when
    /// its turn comes.
    pub open spec fn run(events: Seq<NetworkEvent>) -> Option<Network>
        decreases events.len(),
    {
        if events.len() == 0 {
            Some(Network::fresh())
        } else {
            match Network::run(events.drop_last()) {
                Some(state) => state.after(events.last()),
                None => None,
            }
        }
    }
}

/// The channels among the outcomes, in order.
pub open spec fn channels(outcomes: Seq<Result<MemChannel, BuildFailure>>) -> Seq<MemChannel>
    decreases outcomes.len(),
{
    if outcomes.len() == 0 {
        Seq::empty()
    } else {
        let earlier = channels(outcomes.drop_last());
        match outcomes.last() {
            Ok(channel) => earlier.push(channel),
            Err(_) => earlier,
        }
    }
}

/// A listener accepts channels in the order of their builds, each once, and each the peer of
/// its build; it finds its builders unreachable only once they are gone and it has
/// accepted every channel, and from then on every time.
pub proof fn acceptances_follow_builds(events: Seq<NetworkEvent>)
    requires
        Network::run(events) is Some,
    ensures
        ({
            let state = Network::run(events)->0;
            &&& channels(state.builds) == state.handed.map_values(
                |ends: (MemChannel, MemChannel)| ends.0,
            )
            &&& channels(state.accepts) + state.waiting == state.handed.map_values(
                |ends: (MemChannel, MemChannel)| ends.1,
            )
            &&& forall|i: int|
                0 <= i < state.handed.len() ==> connected(
                    (#[trigger] state.handed[i]).0,
                    state.handed[i].1,
                )
            &&& forall|i: int, j: int|
                0 <= i <= j < state.accepts.len() && #[trigger] state.accepts[i] is Err ==> {
                    &&& #[trigger] state.accepts[j] == Err::<MemChannel, BuildFailure>(
                        BuildFailure::Unreachable,
                    )
                    &&& !state.builder_open
                    &&& state.waiting.len() == 0
                }
        }),
    decreases events.len(),
{
    let after = Network::run(events)->0;
    let local = |ends: (MemChannel, MemChannel)| ends.0;
    let remote = |ends: (MemChannel, MemChannel)| ends.1;
    if events.len() == 0 {
        assert(channels(after.builds) =~= after.handed.map_values(local));
        assert(channels(after.accepts) + after.waiting =~= after.handed.map_values(remote));
    } else {
        acceptances_follow_builds(events.drop_last());
        let before = Network::run(events.drop_last())->0;
        if after.builds != before.builds {
            assert(after.builds.drop_last() =~= before.builds);
        }
        if after.accepts != before.accepts {
            assert(after.accepts.drop_last() =~= before.accepts);
        }
        if after.handed != before.handed {
            assert(after.handed.map_values(local) =~= before.handed.map_values(local).push(
                after.handed.last().0,
            ));
            assert(after.handed.map_values(remote) =~= before.handed.map_values(remote).push(
                after.handed.last().1,
            ));
        }
        assert(channels(after.accepts) + after.waiting =~= after.handed.map_values(remote));
    }
}

/// The state of a burst in one direction, from one endpoint to the other: how many of the
/// messages were started so far, and where the direction stands.
pub ghost struct Burst {
    /// How many sends were started.
    pub started: nat,
    /// The direction that the burst goes in.
    pub direction: Direction,
}

impl Burst {
    /// The burst after an event, or `None` where the event cannot happen or does not belong
    /// to a burst: the sender starts the given messages one after the other, and the
    /// receiver receives.
    pub open spec fn after(
        self,
        config: MemConfig,
        messages: Seq<Seq<u8>>,
        event: Event,
    ) -> Option<Burst> {
        let belongs = match event {
            Event::Start(message) => self.started < messages.len() && message
                == messages[self.started as int],
            Event::Deliver => true,
            Event::Receive => true,
            _ => false,
        };
        match self.direction.after(config, event) {
            Some(direction) => if belongs {
                Some(
                    Burst {
                        started: self.started + if event is Start {
                            1nat
                        } else {
                            0nat
                        },
                        direction,
                    },
                )
            } else {
                None
            },
            None => None,
        }
    }

    /// A burst over a new direction after the given events, or `None` where one of them
    /// cannot happen when its turn comes.
    pub open spec fn run(
        config: MemConfig,
        messages: Seq<Seq<u8>>,
        events: Seq<Event>,
    ) -> Option<Burst>
        decreases events.len(),
    {
        if events.len() == 0 {
            Some(Burst { started: 0, direction: Direction::fresh() })
        } else {
            match Burst::run(config, messages, events.drop_last()) {
                Some(burst) => burst.after(config, messages, events.last()),
                None => None,
            }
        }
    }

    /// The message of the send under way, as a list of at most one.
    pub open spec fn in_flight(self) -> Seq<Seq<u8>> {
        match self.direction.in_flight {
            Some(message) => seq![message],
            None => Seq::empty(),
        }
    }

    /// Whether nothing was lost so far, and the burst has come as far as its events tell: the
    /// messages started are those received, then those in the queue, then the one under
    /// way, and a message takes three events.
    pub open spec fn on_course(
        self,
        config: MemConfig,
        messages: Seq<Seq<u8>>,
        events: nat,
    ) -> bool {
        &&& self.direction.sender_open
        &&& self.direction.receiver_open
        &&& self.direction.fails == 0
        &&& self.started <= messages.len()
        &&& messages.take(self.started as int) == self.direction.received + self.direction.queue
            + self.in_flight()
        &&& self.direction.queue.len() <= config.queue_capacity()
        &&& events == 3 * self.direction.received.len() + 2 * self.direction.queue.len()
            + self.in_flight().len()
    }
}

/// Bursts converge: through queues of any capacity, and in whatever order the two endpoints
/// get to act, one of them can go on as long as not every message was started,
/// delivered and received; once that is so, every message has been received, intact and in
/// order. The two directions of a channel share no queue, so this holds of both at once.
pub proof fn mutual_bursts_converge(
    config: MemConfig,
    messages: Seq<Seq<u8>>,
    events: Seq<Event>,
)
    requires
        config.delivery == Delivery::Confirmed,
        forall|i: int|
            0 <= i < messages.len() ==> held_to_limit(config, #[trigger] messages[i]) == Ok::<
                Seq<u8>,
                nat,
            >(messages[i]),
        Burst::run(config, messages, events) is Some,
    ensures
        ({
            let burst = Burst::run(config, messages, events)->0;
            &&& events.len() <= 3 * messages.len()
            &&& events.len() < 3 * messages.len() ==> exists|event: Event|
                #[trigger] burst.after(config, messages, event) is Some
            &&& events.len() == 3 * messages.len() ==> burst.direction.received == messages
        }),
{
    stays_on_course(config, messages, events);
    let burst = Burst::run(config, messages, events)->0;
    let direction = burst.direction;
    assert(messages.take(burst.started as int).len() == direction.received.len()
        + direction.queue.len() + burst.in_flight().len());
    if direction.queue.len() > 0 {
        assert(burst.after(config, messages, Event::Receive) is Some);
    } else if direction.in_flight is Some {
        assert(burst.after(config, messages, Event::Deliver) is Some);
    } else if burst.started < messages.len() {
        assert(burst.after(config, messages, Event::Start(messages[burst.started as int])) is Some);
    } else {
        assert(messages.take(messages.len() as int) =~= messages);
        assert(direction.received + direction.queue + burst.in_flight() =~= direction.received);
    }
}

/// A burst stays on course.
proof fn stays_on_course(config: MemConfig, messages: Seq<Seq<u8>>, events: Seq<Event>)
    requires
        config.delivery == Delivery::Confirmed,
        forall|i: int|
            0 <= i < messages.len() ==> held_to_limit(config, #[trigger] messages[i]) == Ok::<
                Seq<u8>,
                nat,
            >(messages[i]),
        Burst::run(config, messages, events) is Some,
    ensures
        (Burst::run(config, messages, events)->0).on_course(config, messages, events.len()),
    decreases events.len(),
{
    let after = Burst::run(config, messages, events)->0;
    if events.len() == 0 {
        assert(messages.take(0) =~= after.direction.received + after.direction.queue
            + after.in_flight());
    } else {
        stays_on_course(config, messages, events.drop_last());
        let before = Burst::run(config, messages, events.drop_last())->0;
        let told = before.direction.received + before.direction.queue + before.in_flight();
        assert(messages.take(before.started as int) == told);
        match events.last() {
            Event::Start(message) => {
                assert(messages.take(after.started as int) =~= told.push(message));
            },
            Event::Receive => {
                assert(before.direction.queue.len() > 0);
            },
            _ => {},
        }
        assert(messages.take(after.started as int) =~= after.direction.received
            + after.direction.queue + after.in_flight());
    }
}

} // verus!
