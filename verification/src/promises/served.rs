//! Served backends, and how a connection ends.

use tokio::sync::{mpsc, oneshot};
use vstd::prelude::*;
use vstd::utf8::*;

use crate::error::{BuildError, Cause, RecvError, SendError};
use crate::rpc::client::SendResponse;
use crate::rpc::lifecycle::{next_stage, Stage, StageEvent, EXIT_GRACE_MILLIS};
use crate::rpc::server::{
    answer_recv, answer_send, build_requested, queue_send, recv_is_terminal, send_is_terminal,
    serve_channel, BackendPorts, BuildStep, Inbound, Outbound, Pump, QueuedSend, RequestPorts,
};
use crate::rpc::wire::{decode_recv_reply, decode_send_reply, BuildReply, RecvReply, SendReply};

verus! {

/// A send ends the use of its backend exactly where it failed for another reason than the size
/// of its message, whatever the limit; a receive does where it failed.
pub proof fn only_failures_end_a_backend(
    sent: Result<(), SendError>,
    send_terminal: bool,
    received: Result<Vec<u8>, RecvError>,
    recv_terminal: bool,
)
    requires
        call_ensures(send_is_terminal, (&sent,), send_terminal),
        call_ensures(recv_is_terminal, (&received,), recv_terminal),
    ensures
        send_terminal <==> sent is Err && !(sent->Err_0 is TooLarge),
        recv_terminal <==> received is Err,
{
}

/// The sending direction takes a queued message to the backend, and is over where there will be
/// none. After a send it waits for the next message, unless the send failed for another
/// reason than size, for every limit; then it is over.
pub proof fn sending_goes_on_after_every_other_outcome(
    waiting: &mut Outbound,
    next: bool,
    sending: &mut Outbound,
    result: Result<(), SendError>,
)
    requires
        call_ensures(Outbound::queued, (waiting, next), ()),
        call_ensures(Outbound::sent, (sending, &result), ()),
    ensures
        *final(waiting) is Sending <==> next,
        *final(waiting) is Ended <==> !next,
        *final(sending) is Ended <==> result is Err && !(result->Err_0 is TooLarge),
        *final(sending) is Idle <==> result is Ok || result->Err_0 is TooLarge,
{
}

/// The receiving direction hands every outcome over. It receives again after a message that the
/// callers took, and is over after a failure was handed over, and where the callers are gone.
pub proof fn receiving_goes_on_after_every_message(
    receiving: &mut Inbound,
    result: Result<Vec<u8>, RecvError>,
    handing: &mut Inbound,
    taken: bool,
)
    requires
        call_ensures(Inbound::received, (receiving, &result), ()),
        *old(handing) == *final(receiving),
        call_ensures(Inbound::handed_over, (handing, taken), ()),
    ensures
        *final(receiving) is Handing,
        *final(handing) is Receiving <==> taken && result is Ok,
        *final(handing) is Ended <==> !taken || result is Err,
{
}

/// A new pump has a backend in use, of which one direction waits for a message to send and the
/// other for one to receive; and a pump is over exactly where one of its directions is.
pub proof fn new_pump_is_in_use(fresh: Pump, fresh_over: bool, pump: Pump, over: bool)
    requires
        call_ensures(Pump::new, (), fresh),
        call_ensures(Pump::over, (&fresh,), fresh_over),
        call_ensures(Pump::over, (&pump,), over),
    ensures
        fresh.outbound is Idle,
        fresh.inbound is Receiving,
        !fresh_over,
        over <==> pump.outbound is Ended || pump.inbound is Ended,
{
}

/// A backend stays in use after every send but one that failed for another reason than size:
/// for a pump in use, the pump is over after a send if and only if the outcome is a failure
/// other than a message that was too large, for every limit; otherwise it waits for the
/// next message. The receiving direction is not touched.
pub proof fn backend_survives_every_size_error(
    pump: &mut Pump,
    result: Result<(), SendError>,
    before: bool,
    after: bool,
)
    requires
        call_ensures(Pump::over, (&*old(pump),), before),
        !before,
        call_ensures(Pump::sent, (pump, &result), ()),
        call_ensures(Pump::over, (&*final(pump),), after),
    ensures
        after <==> result is Err && !(result->Err_0 is TooLarge),
        !after ==> final(pump).outbound is Idle,
        final(pump).inbound == old(pump).inbound,
{
}

/// A backend is given up where no message will be queued any more, and stays in use where one
/// was: it is then with the backend. The receiving direction is not touched.
pub proof fn backend_serves_as_long_as_messages_are_queued(
    pump: &mut Pump,
    next: bool,
    before: bool,
    after: bool,
)
    requires
        call_ensures(Pump::over, (&*old(pump),), before),
        !before,
        call_ensures(Pump::queued, (pump, next), ()),
        call_ensures(Pump::over, (&*final(pump),), after),
    ensures
        after <==> !next,
        next ==> final(pump).outbound is Sending,
        final(pump).inbound == old(pump).inbound,
{
}

/// A backend stays in use after a message was received and taken, and is given up once a
/// failure was handed over, and where the callers are gone. A failed receive alone does not end
/// it: the failure is handed over first. The sending direction is not touched.
pub proof fn backend_survives_every_message(
    pump: &mut Pump,
    result: Result<Vec<u8>, RecvError>,
    before: bool,
    between: bool,
    handing: &mut Pump,
    taken: bool,
    after: bool,
)
    requires
        call_ensures(Pump::over, (&*old(pump),), before),
        !before,
        call_ensures(Pump::received, (pump, &result), ()),
        call_ensures(Pump::over, (&*final(pump),), between),
        *old(handing) == *final(pump),
        call_ensures(Pump::handed_over, (handing, taken), ()),
        call_ensures(Pump::over, (&*final(handing),), after),
    ensures
        !between,
        after <==> !taken || result is Err,
        !after ==> final(handing).inbound is Receiving,
        final(handing).outbound == old(pump).outbound,
{
}

/// The two sides of a served channel are the two ends of two queues, one in each direction, and
/// each queue holds one item.
pub proof fn served_channel_is_wired(ports: (RequestPorts, BackendPorts))
    requires
        call_ensures(serve_channel, (), ports),
    ensures
        call_ensures(mpsc::channel::<QueuedSend>, (1,), (ports.0.sends, ports.1.sends)),
        call_ensures(
            mpsc::channel::<Result<Vec<u8>, RecvError>>,
            (1,),
            (ports.1.receives, ports.0.receives),
        ),
{
}

/// A message goes to the backend byte for byte, and its outcome comes back where the request
/// waits.
pub proof fn backend_gets_the_very_message(message: Vec<u8>, queued: (QueuedSend, SendResponse))
    requires
        call_ensures(queue_send, (message,), queued),
    ensures
        (queued.0).0@ == message@,
        call_ensures(
            oneshot::channel::<Result<(), SendError>>,
            (),
            ((queued.0).1, queued.1),
        ),
{
}

/// The caller of a send learns what became of it at the backend: success exactly where the
/// backend succeeded, its limit, closure, and closure too where the backend gave no outcome;
/// an opaque failure in the words of its cause.
pub proof fn send_is_answered_with_its_outcome(
    outcome: Option<Result<(), SendError>>,
    reply: SendReply,
    learned: Result<(), SendError>,
    cause: Cause,
    words: String,
)
    requires
        call_ensures(answer_send, (outcome,), reply),
        call_ensures(decode_send_reply, (Ok::<SendReply, capnp::Error>(reply),), learned),
        call_ensures(Cause::text, (&cause,), words),
    ensures
        learned is Ok <==> outcome matches Some(Ok(())),
        outcome matches Some(Err(SendError::TooLarge { max })) ==> (learned matches Err(
            SendError::TooLarge { max: learned_max },
        ) && learned_max == max),
        (outcome is None || outcome matches Some(Err(SendError::Closed))) ==> (learned matches Err(
            SendError::Closed,
        )),
        outcome == Some(Err::<(), SendError>(SendError::Transport(cause))) ==> (
        learned matches Err(SendError::Transport(Cause::Text(arrived))) && arrived@ == words@),
{
    encode_utf8_valid_utf8(words@);
    encode_utf8_decode_utf8(words@);
}

/// The caller of a receive learns what the backend received: a message exactly where there was
/// one, byte for byte, closure, and closure too where the backend gave no outcome; an opaque
/// failure in the words of its cause.
pub proof fn receive_is_answered_with_its_outcome(
    outcome: Option<Result<Vec<u8>, RecvError>>,
    reply: RecvReply,
    learned: Result<Vec<u8>, RecvError>,
    cause: Cause,
    words: String,
)
    requires
        call_ensures(answer_recv, (outcome,), reply),
        call_ensures(decode_recv_reply, (Ok::<RecvReply, capnp::Error>(reply),), learned),
        call_ensures(Cause::text, (&cause,), words),
    ensures
        learned is Ok <==> outcome matches Some(Ok(_)),
        outcome matches Some(Ok(message)) ==> (learned matches Ok(received) && received@
            == message@),
        (outcome is None || outcome matches Some(Err(RecvError::Closed))) ==> (learned matches Err(
            RecvError::Closed,
        )),
        outcome == Some(Err::<Vec<u8>, RecvError>(RecvError::Transport(cause))) ==> (
        learned matches Err(RecvError::Transport(Cause::Text(arrived))) && arrived@ == words@),
{
    encode_utf8_valid_utf8(words@);
    encode_utf8_decode_utf8(words@);
}

/// The backend of a builder is asked exactly where the token was not refused, with what the
/// token was decoded to; a refusal is answered as it is.
pub proof fn refused_token_is_answered<I, C>(
    decoded: Result<I, BuildError>,
    step: BuildStep<I, C>,
    cause: Cause,
    words: String,
)
    requires
        call_ensures(build_requested::<I, C>, (decoded,), step),
        call_ensures(Cause::text, (&cause,), words),
    ensures
        step is Call <==> decoded is Ok,
        decoded matches Ok(input) ==> step == BuildStep::<I, C>::Call(input),
        (decoded matches Err(BuildError::Unreachable)) ==> (step matches BuildStep::Answer(
            BuildReply::Unreachable,
        )),
        decoded == Err::<I, BuildError>(BuildError::Transport(cause)) ==> (
        step matches BuildStep::Answer(BuildReply::Failed(text)) && text@ == encode_utf8(words@)),
{
}

/// A connection that has served is done, unless a process was spawned for it: that gets its
/// grace period. A process that exits in time leaves nothing to do; one that does not is
/// killed, and reaped when that was done. Nothing else moves a connection on.
pub proof fn connection_ends_step_by_step(stage: Stage, event: StageEvent, next: Stage)
    requires
        call_ensures(next_stage, (stage, event), next),
    ensures
        stage is Serving && event is Served ==> {
            &&& next is Leaving <==> stage->child
            &&& next is Done <==> !stage->child
        },
        stage is Leaving && event is Exited ==> next is Done,
        stage is Leaving && event is GraceOver ==> next is Killing,
        stage is Killing && event is KillSent ==> next is Reaping,
        stage is Reaping && event is Reaped ==> next is Done,
        next != stage ==> {
            ||| stage is Serving && event is Served
            ||| stage is Leaving && (event is Exited || event is GraceOver)
            ||| stage is Killing && event is KillSent
            ||| stage is Reaping && event is Reaped
        },
        EXIT_GRACE_MILLIS == 100,
{
}

/// A pump takes note of whatever comes next: of a queued message, or that there will be none,
/// while it waits for one; of every outcome of a send that is under way; of every outcome of a
/// receive; and of whether that was taken. Requests can always be answered.
pub proof fn pump_takes_note_of_everything<I, C>(
    waiting: &mut Pump,
    next: bool,
    sending: &mut Pump,
    sent: Result<(), SendError>,
    receiving: &mut Pump,
    received: Result<Vec<u8>, RecvError>,
    handing: &mut Pump,
    taken: bool,
    message: Vec<u8>,
    send_outcome: Option<Result<(), SendError>>,
    recv_outcome: Option<Result<Vec<u8>, RecvError>>,
    decoded: Result<I, BuildError>,
    stage: Stage,
    event: StageEvent,
)
    requires
        old(waiting).outbound is Idle && !(old(waiting).inbound is Ended),
        old(sending).outbound is Sending && !(old(sending).inbound is Ended),
        old(receiving).inbound is Receiving && !(old(receiving).outbound is Ended),
        old(handing).inbound is Handing && !(old(handing).outbound is Ended),
    ensures
        call_requires(Pump::queued, (waiting, next)),
        call_requires(Pump::sent, (sending, &sent)),
        call_requires(Pump::received, (receiving, &received)),
        call_requires(Pump::handed_over, (handing, taken)),
        call_requires(serve_channel, ()),
        call_requires(queue_send, (message,)),
        call_requires(answer_send, (send_outcome,)),
        call_requires(answer_recv, (recv_outcome,)),
        call_requires(build_requested::<I, C>, (decoded,)),
        call_requires(next_stage, (stage, event)),
{
}

} // verus!
