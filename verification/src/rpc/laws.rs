//! What holds of remote channels as a whole.

use vstd::prelude::*;
use vstd::utf8::*;

use crate::rpc::client::{
    BuildCall, CapnpAcceptor, CapnpBuilder, PendingReceive, RecvResponse, RecvStep,
};
use crate::rpc::server::{Inbound, Outbound, Pump};

verus! {

use crate::error::{
    rpc_build_failure, rpc_cause, rpc_recv_failure, rpc_send_failure, BuildFailure, CauseView,
    RecvFailure, SendFailure,
};
use crate::rpc::client::{pending_after_request, receive_starts};
use crate::rpc::server::{recv_answered, send_ends, PumpEvent};
use crate::rpc::wire::{
    build_answer, build_report, failed_cause, recv_answer, recv_report, send_answer, send_report,
    RecvReplyView,
};

/// A cause as it arrives on the other side of an RPC stream: its diagnostic text.
pub open spec fn carried(cause: CauseView) -> CauseView {
    CauseView::Text(cause.text())
}

/// A diagnostic text is the same on both sides of an RPC stream, and on every stream
/// that it is passed on over.
pub proof fn diagnostic_text_crosses(cause: CauseView)
    ensures
        failed_cause(encode_utf8(cause.text())) == carried(cause),
        carried(cause).text() == cause.text(),
        carried(carried(cause)) == carried(cause),
{
    encode_utf8_valid_utf8(cause.text());
    encode_utf8_decode_utf8(cause.text());
}

/// The outcome of a send is the same on both sides of an RPC stream, except that an
/// opaque failure arrives as its diagnostic text.
pub proof fn send_outcome_crosses(outcome: Result<(), SendFailure>)
    requires
        outcome matches Err(SendFailure::TooLarge { max }) ==> max <= usize::MAX,
    ensures
        send_answer(Ok(send_report(outcome))) == match outcome {
            Err(SendFailure::Transport(cause)) => Err(SendFailure::Transport(carried(cause))),
            _ => outcome,
        },
{
    match outcome {
        Ok(done) => assert(done == ()),
        Err(SendFailure::Transport(cause)) => diagnostic_text_crosses(cause),
        Err(_) => {},
    }
}

/// The outcome of a receive is the same on both sides of an RPC stream, except that an
/// opaque failure arrives as its diagnostic text. A message arrives intact.
pub proof fn recv_outcome_crosses(outcome: Result<Seq<u8>, RecvFailure>)
    ensures
        recv_answer(Ok(recv_report(outcome))) == match outcome {
            Err(RecvFailure::Transport(cause)) => Err(RecvFailure::Transport(carried(cause))),
            _ => outcome,
        },
{
    if let Err(RecvFailure::Transport(cause)) = outcome {
        diagnostic_text_crosses(cause);
    }
}

/// The outcome of a build is the same on both sides of an RPC stream, except that an
/// opaque failure arrives as its diagnostic text.
pub proof fn build_outcome_crosses<C>(outcome: Result<C, BuildFailure>)
    ensures
        build_answer(Ok(build_report(outcome))) == match outcome {
            Err(BuildFailure::Transport(cause)) => Err(BuildFailure::Transport(carried(cause))),
            _ => outcome,
        },
{
    if let Err(BuildFailure::Transport(cause)) = outcome {
        diagnostic_text_crosses(cause);
    }
}

/// A size error of the backend retains its limit across an RPC stream, and leaves the
/// backend in use.
pub proof fn too_large_crosses_and_is_recoverable(max: usize)
    ensures
        ({
            let outcome: Result<(), SendFailure> = Err(SendFailure::TooLarge { max: max as nat });
            &&& send_answer(Ok(send_report(outcome))) == outcome
            &&& !send_ends(outcome)
        }),
{
}

/// A lost connection is reported as such, and nothing else is: any other error of
/// the RPC system is kept as the cause of an opaque failure.
pub proof fn only_disconnects_close(error: capnp::Error)
    ensures
        rpc_send_failure(error) == SendFailure::Closed <==> error.kind is Disconnected,
        rpc_recv_failure(error) == RecvFailure::Closed <==> error.kind is Disconnected,
        rpc_build_failure(error) == BuildFailure::Unreachable <==> error.kind is Disconnected,
        !(error.kind is Disconnected) ==> {
            &&& rpc_send_failure(error) == SendFailure::Transport(rpc_cause(error))
            &&& rpc_recv_failure(error) == RecvFailure::Transport(rpc_cause(error))
            &&& rpc_build_failure(error) == BuildFailure::Transport(rpc_cause(error))
        },
{
}

/// An RPC error that is kept as a cause keeps its context: the words of the failure end
/// with it, and are those of the cause.
pub proof fn protocol_failures_keep_their_context(error: capnp::Error)
    requires
        !(error.kind is Disconnected),
    ensures
        rpc_send_failure(error).text() == rpc_cause(error).text(),
        rpc_recv_failure(error).text() == rpc_cause(error).text(),
        rpc_build_failure(error).text() == rpc_cause(error).text(),
        error.extra@.is_suffix_of(rpc_cause(error).text()),
{
    let text = rpc_cause(error).text();
    let start = text.len() - error.extra@.len();
    assert(text.subrange(start, text.len() as int) =~= error.extra@);
}

/// The receiving side of a remote channel over time.
pub ghost struct Receiving {
    /// The response that is outstanding, if there is one.
    pub pending: PendingReceive,
    /// The responses to the requests that were queued, in order.
    pub requested: Seq<RecvResponse>,
    /// The responses that were handed to a caller, in order.
    pub settled: Seq<RecvResponse>,
}

/// What happens on the receiving side of a remote channel.
pub ghost enum ReceivingEvent {
    /// A receive queued its request.
    Requested(RecvResponse),
    /// A receive could not queue its request.
    Refused,
    /// A receive was abandoned, wherever it stood.
    Canceled,
    /// A receive was finished with the answer to the outstanding response.
    Settled,
}

/// Whether an event can happen in the given state: a request is made only where no
/// response is outstanding, and only an outstanding response is settled.
pub open spec fn receiving_enabled(state: Receiving, event: ReceivingEvent) -> bool {
    match event {
        ReceivingEvent::Requested(_) => state.pending is None,
        ReceivingEvent::Refused => state.pending is None,
        ReceivingEvent::Canceled => true,
        ReceivingEvent::Settled => state.pending is Some,
    }
}

/// The state after an event. A canceled receive leaves everything as it was.
pub open spec fn receiving_after(state: Receiving, event: ReceivingEvent) -> Receiving {
    match event {
        ReceivingEvent::Requested(response) => Receiving {
            pending: Some(response),
            requested: state.requested.push(response),
            settled: state.settled,
        },
        ReceivingEvent::Refused => state,
        ReceivingEvent::Canceled => state,
        ReceivingEvent::Settled => Receiving {
            pending: None,
            requested: state.requested,
            settled: state.settled.push(state.pending->0),
        },
    }
}

/// The state of a new channel after the given events, or `None` where one of them
/// cannot happen when its turn comes.
pub open spec fn receiving_after_all(events: Seq<ReceivingEvent>) -> Option<Receiving>
    decreases events.len(),
{
    if events.len() == 0 {
        Some(Receiving { pending: None, requested: Seq::empty(), settled: Seq::empty() })
    } else {
        match receiving_after_all(events.drop_last()) {
            Some(state) => if receiving_enabled(state, events.last()) {
                Some(receiving_after(state, events.last()))
            } else {
                None
            },
            None => None,
        }
    }
}

/// Canceled receives lose nothing: however often a receive is abandoned, every response
/// that was requested is settled once and in order, but for the one that is
/// outstanding, if there is one.
pub proof fn receive_is_cancel_safe(events: Seq<ReceivingEvent>)
    requires
        receiving_after_all(events) is Some,
    ensures
        ({
            let state = receiving_after_all(events)->0;
            state.requested == match state.pending {
                Some(response) => state.settled.push(response),
                None => state.settled,
            }
        }),
    decreases events.len(),
{
    if events.len() > 0 {
        receive_is_cancel_safe(events.drop_last());
    }
}

/// The channel receives as the trace tells: a receive that finds nothing outstanding makes a
/// request, which leaves its response outstanding exactly where it was queued; any other waits
/// for the response that is outstanding, and settling leaves nothing outstanding.
pub proof fn receiving_follows_the_channel(state: Receiving, step: RecvStep, queued: bool)
    requires
        receive_starts(state.pending, step),
    ensures
        match step {
            RecvStep::Request(call) => {
                let event = if queued {
                    ReceivingEvent::Requested(call.response)
                } else {
                    ReceivingEvent::Refused
                };
                &&& receiving_enabled(state, event)
                &&& receiving_after(state, event).pending == pending_after_request(
                    state.pending,
                    call.response,
                    queued,
                )
                &&& queued ==> receiving_enabled(
                    receiving_after(state, event),
                    ReceivingEvent::Settled,
                )
            },
            RecvStep::Await => {
                &&& receiving_enabled(state, ReceivingEvent::Settled)
                &&& receiving_after(state, ReceivingEvent::Settled).pending is None
                &&& receiving_after(state, ReceivingEvent::Settled).settled == state.settled.push(
                    state.pending->0,
                )
            },
        },
{
}

/// An acceptor is a builder with the empty token: what it asks for, and where it asks, is what
/// the builder behind it asks for with that token.
pub proof fn acceptor_builds_from_the_empty_token(
    builder: CapnpBuilder,
    acceptor: CapnpAcceptor,
    call: BuildCall<'_>,
)
    requires
        acceptor.builder() == builder,
    ensures
        acceptor.calls(call) <==> builder.calls(Seq::empty(), call),
        acceptor.calls(call) ==> {
            &&& *call.commands == builder.commands_handle()
            &&& call.command.input@.len() == 0
        },
{
}

/// The pump of a new backend after the given events, or `None` where one of them cannot happen
/// when its turn comes.
pub open spec fn pump_after_all(events: Seq<PumpEvent>) -> Option<Pump>
    decreases events.len(),
{
    if events.len() == 0 {
        Some(Pump::fresh())
    } else {
        match pump_after_all(events.drop_last()) {
            Some(pump) => pump.after(events.last()),
            None => None,
        }
    }
}

/// Whether an event calls for giving up the backend at once.
pub open spec fn ends_pump(event: PumpEvent) -> bool {
    match event {
        PumpEvent::Queued(next) => !next,
        PumpEvent::Sent(outcome) => send_ends(outcome),
        PumpEvent::Received(outcome) => false,
        PumpEvent::HandedOver(taken) => !taken,
    }
}

/// Whichever direction ends first ends both: a backend of which one direction is over takes no
/// part in anything more, and it is over exactly where one of its directions is.
pub proof fn either_direction_ends_both(pump: Pump, event: PumpEvent)
    ensures
        pump.ended() <==> (pump.outbound == Outbound::Ended || pump.inbound == Inbound::Ended),
        pump.ended() ==> pump.after(event) is None,
{
}

/// A backend is given up at the first send that fails for another reason than size, at
/// the first receive that fails once that was handed over, and when the callers of
/// either direction are gone; nothing is asked of it after that.
pub proof fn terminal_outcome_is_the_last(events: Seq<PumpEvent>, i: int)
    requires
        pump_after_all(events) is Some,
        0 <= i < events.len() - 1,
    ensures
        !ends_pump(events[i]),
        events[i] matches PumpEvent::Received(Err(_)) ==> forall|j: int|
            i < j < events.len() - 1 ==> !(#[trigger] events[j] is HandedOver),
    decreases events.len(),
{
    let earlier = events.drop_last();
    if i < events.len() - 2 {
        terminal_outcome_is_the_last(earlier, i);
        assert(earlier[i] == events[i]);
        if events[i] matches PumpEvent::Received(Err(_)) {
            failed_receive_is_handed_over(earlier, i);
            assert forall|j: int| i < j < events.len() - 1 implies !(
            #[trigger] events[j] is HandedOver) by {
                assert(earlier[j] == events[j]);
            }
        }
    } else {
        assert(earlier.last() == events[i]);
        let before = pump_after_all(earlier.drop_last())->0;
        let after = pump_after_all(earlier)->0;
        assert(before.after(events[i]) == Some(after));
        assert(after.after(events.last()) is Some);
    }
}

/// After a failed receive, the receiving direction is handing over its last outcome,
/// or is over once it has.
proof fn failed_receive_is_handed_over(events: Seq<PumpEvent>, i: int)
    requires
        pump_after_all(events) is Some,
        0 <= i < events.len(),
        events[i] matches PumpEvent::Received(Err(_)),
    ensures
        ({
            let inbound = (pump_after_all(events)->0).inbound;
            ||| inbound == Inbound::Ended && events.last() is HandedOver
            ||| inbound == (Inbound::Handing { last: true }) && forall|j: int|
                i < j < events.len() ==> !(#[trigger] events[j] is HandedOver)
        }),
    decreases events.len(),
{
    let earlier = events.drop_last();
    if i < events.len() - 1 {
        assert(earlier[i] == events[i]);
        failed_receive_is_handed_over(earlier, i);
        assert forall|j: int| i < j < events.len() - 1 implies earlier[j]
            == #[trigger] events[j] by {}
    }
}

/// A served backend and its callers over time, as far as receiving goes.
pub ghost struct Serving {
    /// What drives the backend.
    pub pump: Pump,
    /// The outcome on its way to the callers, if there is one.
    pub in_hand: Option<Result<Seq<u8>, RecvFailure>>,
    /// The outcomes in the queue of the callers, the oldest first.
    pub queue: Seq<Result<Seq<u8>, RecvFailure>>,
    /// Whether the callers are there.
    pub callers: bool,
    /// The outcomes of the backend's receives, in order.
    pub outcomes: Seq<Result<Seq<u8>, RecvFailure>>,
    /// The outcomes that entered the queue of the callers, in order.
    pub handed: Seq<Result<Seq<u8>, RecvFailure>>,
    /// The answers to requests to receive, in order.
    pub answers: Seq<RecvReplyView>,
}

/// What happens to a served backend and its callers.
pub ghost enum ServingEvent {
    /// Something happens to the backend.
    Pump(PumpEvent),
    /// A request to receive is answered.
    Answer,
}

impl Serving {
    /// A backend that is served from now on.
    pub open spec fn fresh() -> Serving {
        Serving {
            pump: Pump::fresh(),
            in_hand: None,
            queue: Seq::empty(),
            callers: true,
            outcomes: Seq::empty(),
            handed: Seq::empty(),
            answers: Seq::empty(),
        }
    }

    /// The state after an event, or `None` where the event cannot happen: an outcome is handed
    /// over where the queue, which holds one, has room, and a request waits for an outcome
    /// as long as the backend is served.
    pub open spec fn after(self, event: ServingEvent) -> Option<Serving> {
        match event {
            ServingEvent::Pump(event) => match self.pump.after(event) {
                Some(next) => {
                    let moved = Serving { pump: next, ..self };
                    match event {
                        PumpEvent::Received(outcome) => Some(
                            Serving {
                                in_hand: Some(outcome),
                                outcomes: self.outcomes.push(outcome),
                                ..moved
                            },
                        ),
                        PumpEvent::HandedOver(true) => if self.queue.len() < 1 {
                            Some(
                                Serving {
                                    in_hand: None,
                                    queue: self.queue.push(self.in_hand->0),
                                    handed: self.handed.push(self.in_hand->0),
                                    ..moved
                                },
                            )
                        } else {
                            None
                        },
                        PumpEvent::HandedOver(false) => Some(
                            Serving { in_hand: None, callers: false, ..moved },
                        ),
                        _ => Some(moved),
                    }
                },
                None => None,
            },
            ServingEvent::Answer => if self.queue.len() > 0 {
                Some(
                    Serving {
                        queue: self.queue.drop_first(),
                        answers: self.answers.push(recv_answered(Some(self.queue[0]))),
                        ..self
                    },
                )
            } else if self.pump.ended() {
                Some(Serving { answers: self.answers.push(recv_answered(None)), ..self })
            } else {
                None
            },
        }
    }

    /// The state of a new backend after the given events, or `None` where one of them cannot
    /// happen when its turn comes.
    pub open spec fn run(events: Seq<ServingEvent>) -> Option<Serving>
        decreases events.len(),
    {
        if events.len() == 0 {
            Some(Serving::fresh())
        } else {
            match Serving::run(events.drop_last()) {
                Some(state) => state.after(events.last()),
                None => None,
            }
        }
    }

    /// How many outcomes were taken from the queue by answers.
    pub open spec fn taken(self) -> int {
        self.handed.len() - self.queue.len()
    }

    /// Whether the answers are those that the backend's outcomes call for.
    pub open spec fn in_order(self) -> bool {
        &&& 0 <= self.taken() <= self.answers.len()
        &&& self.handed.len() <= self.outcomes.len()
        &&& self.handed == self.outcomes.take(self.handed.len() as int)
        &&& self.queue == self.handed.skip(self.taken())
        &&& forall|i: int|
            0 <= i < self.taken() ==> #[trigger] self.answers[i] == recv_report(self.outcomes[i])
        &&& forall|i: int|
            self.taken() <= i < self.answers.len() ==> #[trigger] self.answers[i]
                == RecvReplyView::Closed
        &&& self.taken() < self.answers.len() ==> self.pump.ended() && self.queue.len() == 0
        &&& forall|i: int|
            0 <= i < self.outcomes.len() - 1 ==> #[trigger] self.outcomes[i] is Ok
        &&& self.pump.ended() && self.pump.outbound != Outbound::Ended && self.callers ==> {
            &&& self.handed == self.outcomes
            &&& self.outcomes.len() > 0
            &&& self.outcomes.last() is Err
        }
    }
}

/// Requests to receive are answered in the order in which the backend received, each outcome
/// once and unchanged; a backend receives nothing after a failure; and once it was given up
/// and its outcomes were answered, every request is answered with closure. Unless a send or
/// the callers end it, a backend is given up only when its failure was handed over.
pub proof fn served_receives_are_answered_in_order(events: Seq<ServingEvent>)
    requires
        Serving::run(events) is Some,
    ensures
        (Serving::run(events)->0).in_order(),
{
    serving_goes_on(events);
}

/// The two directions of a served backend fit the outcome in hand, and its answers are in
/// order.
proof fn serving_goes_on(events: Seq<ServingEvent>)
    requires
        Serving::run(events) is Some,
    ensures
        ({
            let state = Serving::run(events)->0;
            &&& state.in_order()
            &&& match state.pump.inbound {
                Inbound::Receiving => {
                    &&& state.in_hand is None
                    &&& state.handed == state.outcomes
                    &&& state.outcomes.len() > 0 ==> state.outcomes.last() is Ok
                },
                Inbound::Handing { last } => {
                    &&& state.in_hand is Some
                    &&& state.outcomes == state.handed.push(state.in_hand->0)
                    &&& last == (state.in_hand->0 is Err)
                },
                Inbound::Ended => true,
            }
        }),
    decreases events.len(),
{
    let after = Serving::run(events)->0;
    if events.len() > 0 {
        serving_goes_on(events.drop_last());
        let before = Serving::run(events.drop_last())->0;
        match events.last() {
            ServingEvent::Pump(PumpEvent::Received(outcome)) => {
                assert(after.outcomes.take(after.handed.len() as int) =~= before.outcomes);
                assert(after.outcomes =~= after.handed.push(outcome));
            },
            ServingEvent::Pump(PumpEvent::HandedOver(true)) => {
                assert(after.handed =~= after.outcomes);
                assert(after.outcomes.take(after.handed.len() as int) =~= after.outcomes);
                assert(after.queue =~= after.handed.skip(after.taken()));
            },
            ServingEvent::Answer => {
                assert(after.queue =~= after.handed.skip(after.taken()));
                if before.queue.len() > 0 {
                    assert(before.queue[0] == before.handed[before.taken()]);
                    assert(before.taken() == before.answers.len());
                }
            },
            _ => {},
        }
    } else {
        assert(after.handed =~= after.outcomes.take(0));
        assert(after.queue =~= after.handed.skip(0));
    }
}

} // verus!
