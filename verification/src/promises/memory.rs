//! Channels and networks in memory, and the echoing backend.

use tokio::sync::mpsc;
use vstd::prelude::*;

use crate::echo::{echo_received, echo_sent, Echo, EchoBuilder, EchoReceiver, EchoSender};
use crate::error::{BuildError, Cause, RecvError, SendError};
use crate::mem::{
    best_effort_gate, best_effort_result, duplex, finish_recv, finish_send, network, prepare,
    take_one, try_send_best_effort, Delivery, Enqueued, MemAddr, MemChannel, MemChannelBuilder,
    MemConfig, MemListener, MemRecvHalf, MemSendHalf, SendStep, BACKLOG,
};
use crate::queue::{outlet, Attempt, Outlet, MAX_CAPACITY};

verus! {

use crate::queue::{entries, offers, AttemptView, Contact};

/// A message is refused for its size exactly where a limit is configured and the message is
/// longer, and then with that limit; any other message comes through byte for byte.
pub proof fn only_the_limit_refuses(
    config: MemConfig,
    message: Vec<u8>,
    prepared: Result<Vec<u8>, usize>,
)
    requires
        call_ensures(prepare, (&config, message), prepared),
    ensures
        prepared is Err <==> (config.max_message_len matches Some(max) && message@.len() > max),
        prepared matches Ok(kept) ==> kept@ == message@,
        prepared matches Err(limit) ==> config.max_message_len == Some(limit),
{
}

/// A counter gives as often as it says, one at a time, and nothing after that.
pub proof fn counter_gives_one_at_a_time(counter: &mut usize, taken: bool)
    requires
        call_ensures(take_one, (counter,), taken),
    ensures
        taken <==> *old(counter) > 0,
        taken ==> *final(counter) + 1 == *old(counter),
        !taken ==> *final(counter) == *old(counter),
{
}

/// A channel delivers with confirmation, without a limit, latency or timeout, unless it is
/// configured otherwise.
pub proof fn nothing_is_configured_by_default(delivery: Delivery, config: MemConfig)
    requires
        call_ensures(<Delivery as Default>::default, (), delivery),
        call_ensures(<MemConfig as Default>::default, (), config),
    ensures
        delivery is Confirmed,
        config.delivery is Confirmed,
        config.capacity is None,
        config.max_message_len is None,
        config.latency is None,
        config.send_timeout is None,
{
}

/// Before a best-effort send tries the queue, closure is reported whatever losses are to be
/// injected, and uses none up; otherwise a loss is used up silently, if there is one; and only
/// where there is none the queue is to be tried.
pub proof fn closure_comes_before_loss(
    closed: bool,
    drop_next: &mut usize,
    decided: Option<Result<(), SendError>>,
)
    requires
        call_ensures(best_effort_gate, (closed, drop_next), decided),
    ensures
        decided is None <==> !closed && *old(drop_next) == 0,
        closed ==> (decided matches Some(Err(SendError::Closed))),
        !closed && *old(drop_next) > 0 ==> (decided matches Some(Ok(()))),
        !closed && *old(drop_next) > 0 ==> *final(drop_next) + 1 == *old(drop_next),
        closed || *old(drop_next) == 0 ==> *final(drop_next) == *old(drop_next),
{
}

/// A best-effort send fails exactly where the queue turned out closed: a full one loses the
/// message silently.
pub proof fn only_closure_fails_an_attempt(attempt: Attempt, result: Result<(), SendError>)
    requires
        call_ensures(best_effort_result, (attempt,), result),
    ensures
        result is Err <==> (attempt matches Err(mpsc::error::TrySendError::Closed(_))),
        result matches Err(error) ==> error is Closed,
{
}

/// A best-effort attempt offers exactly this message, once, to the queue that it was given; it
/// fails exactly where that is closed.
pub proof fn attempt_offers_the_very_message(
    outlet: &mut Outlet,
    message: Vec<u8>,
    result: Result<(), SendError>,
)
    requires
        call_ensures(try_send_best_effort, (outlet, message), result),
    ensures
        final(outlet).handle() == old(outlet).handle(),
        final(outlet).log().len() == old(outlet).log().len() + 1,
        final(outlet).log().drop_last() == old(outlet).log(),
        final(outlet).log().last() matches Contact::Offered(offered, attempt) && {
            &&& offered == message@
            &&& result is Err <==> attempt is Closed
        },
        result matches Err(error) ==> error is Closed,
{
    let attempt = choose|attempt: AttemptView|
        {
            &&& final(outlet).log() == old(outlet).log().push(Contact::Offered(message@, attempt))
            &&& crate::error::send_outcome(result) == #[trigger] crate::mem::attempt_outcome(
                attempt,
            )
        };
    assert(final(outlet).log().drop_last() =~= old(outlet).log());
}

/// A confirmed send succeeds exactly where the queue took the message; it reports closure, or
/// that it took too long.
pub proof fn confirmed_send_ends_as_its_message(enqueued: Enqueued, result: Result<(), SendError>)
    requires
        call_ensures(finish_send, (enqueued,), result),
    ensures
        result is Ok <==> enqueued is Accepted,
        enqueued is Closed ==> (result matches Err(SendError::Closed)),
        enqueued is TimedOut ==> (result matches Err(SendError::Transport(Cause::Text(words)))
            && words@ == "send timed out"@),
{
}

/// A receive yields the message that the queue gave, byte for byte, and reports closure exactly
/// where it gave none.
pub proof fn receive_ends_as_the_queue_gave(
    received: Option<Vec<u8>>,
    result: Result<Vec<u8>, RecvError>,
)
    requires
        call_ensures(finish_recv, (received,), result),
    ensures
        result is Ok <==> received is Some,
        received matches Some(message) ==> (result matches Ok(yielded) && yielded@ == message@),
        received is None ==> (result matches Err(RecvError::Closed)),
{
}

/// Two new endpoints are connected crosswise by queues of the configured capacity, which is one
/// where none or zero is configured; nothing was asked of the queues yet, no fault is to be
/// injected, and both endpoints carry the configuration.
pub proof fn new_endpoints_are_connected(
    config: MemConfig,
    ends: (MemChannel, MemChannel),
    capacity: usize,
)
    requires
        call_ensures(duplex, (config,), ends),
        config.capacity matches Some(asked) ==> capacity == if asked == 0 {
            1
        } else {
            asked as int
        },
        config.capacity is None ==> capacity == 1,
    ensures
        call_ensures(
            mpsc::channel::<Vec<u8>>,
            (capacity,),
            (ends.0.sending_handle(), ends.1.receiving_handle()),
        ),
        call_ensures(
            mpsc::channel::<Vec<u8>>,
            (capacity,),
            (ends.1.sending_handle(), ends.0.receiving_handle()),
        ),
        ends.0.config() == config,
        ends.1.config() == config,
        ends.0.log().len() == 0,
        ends.1.log().len() == 0,
        ends.0.drops() == 0,
        ends.1.drops() == 0,
        ends.0.fails() == 0,
        ends.1.fails() == 0,
{
}

/// The number of faults to inject replaces what was left of them, and nothing else of the
/// endpoint changes.
pub proof fn fault_counts_are_replaced(
    losing: &mut MemChannel,
    losses: usize,
    failing: &mut MemChannel,
    failures: usize,
)
    requires
        call_ensures(MemChannel::drop_next, (losing, losses), ()),
        call_ensures(MemChannel::fail_next, (failing, failures), ()),
    ensures
        final(losing).drops() == losses,
        final(losing).fails() == old(losing).fails(),
        final(losing).config() == old(losing).config(),
        final(losing).log() == old(losing).log(),
        final(losing).sending_handle() == old(losing).sending_handle(),
        final(losing).receiving_handle() == old(losing).receiving_handle(),
        final(failing).fails() == failures,
        final(failing).drops() == old(failing).drops(),
        final(failing).config() == old(failing).config(),
        final(failing).log() == old(failing).log(),
        final(failing).sending_handle() == old(failing).sending_handle(),
        final(failing).receiving_handle() == old(failing).receiving_handle(),
{
}

/// A message longer than the configured limit, and no other, is refused with that limit when it
/// is sent on an endpoint, whatever faults are to be injected, and nothing changes: the queue
/// is neither asked nor offered anything.
pub proof fn endpoint_refuses_longer_messages(
    endpoint: &mut MemChannel,
    message: Vec<u8>,
    step: SendStep,
)
    requires
        call_ensures(MemChannel::start_send, (endpoint, message), step),
    ensures
        ({
            let config = old(endpoint).config();
            let drops = (old(endpoint).drops(), final(endpoint).drops());
            let fails = (old(endpoint).fails(), final(endpoint).fails());
            let log = (old(endpoint).log(), final(endpoint).log());
            let over = config.max_message_len matches Some(max) && message@.len() > max;
            &&& (step matches SendStep::Finished(Err(SendError::TooLarge { .. }))) <==> over
            &&& step matches SendStep::Finished(Err(SendError::TooLarge { max })) ==> {
                &&& config.max_message_len == Some(max)
                &&& fails.1 == fails.0
                &&& drops.1 == drops.0
                &&& log.1 == log.0
            }
        }),
        final(endpoint).config() == old(endpoint).config(),
        final(endpoint).sending_handle() == old(endpoint).sending_handle(),
        final(endpoint).receiving_handle() == old(endpoint).receiving_handle(),
{
}

/// While failures are to be injected, a send on an endpoint within the limit fails with one of
/// them, which is used up, and nothing else changes; without any it does not fail like that.
pub proof fn endpoint_fails_as_often_as_asked(
    endpoint: &mut MemChannel,
    message: Vec<u8>,
    step: SendStep,
)
    requires
        call_ensures(MemChannel::start_send, (endpoint, message), step),
        !(old(endpoint).config().max_message_len matches Some(max) && message@.len() > max),
    ensures
        ({
            let drops = (old(endpoint).drops(), final(endpoint).drops());
            let fails = (old(endpoint).fails(), final(endpoint).fails());
            let log = (old(endpoint).log(), final(endpoint).log());
            &&& fails.0 > 0 <==> (step matches SendStep::Finished(Err(SendError::Transport(_))))
            &&& fails.0 > 0 ==> {
                &&& step matches SendStep::Finished(Err(SendError::Transport(Cause::Text(words))))
                    && words@ == "injected failure"@
                &&& fails.1 + 1 == fails.0
                &&& drops.1 == drops.0
                &&& log.1 == log.0
            }
            &&& fails.0 == 0 ==> fails.1 == 0
        }),
        final(endpoint).config() == old(endpoint).config(),
        final(endpoint).sending_handle() == old(endpoint).sending_handle(),
        final(endpoint).receiving_handle() == old(endpoint).receiving_handle(),
{
}

/// Where a latency is configured, a send on an endpoint that is not to be refused or to fail
/// sleeps for it with the very message, and nothing changes; otherwise it does not sleep.
pub proof fn endpoint_sleeps_for_its_latency(
    endpoint: &mut MemChannel,
    message: Vec<u8>,
    step: SendStep,
)
    requires
        call_ensures(MemChannel::start_send, (endpoint, message), step),
        !(old(endpoint).config().max_message_len matches Some(max) && message@.len() > max),
        old(endpoint).fails() == 0,
    ensures
        ({
            let config = old(endpoint).config();
            let drops = (old(endpoint).drops(), final(endpoint).drops());
            let fails = (old(endpoint).fails(), final(endpoint).fails());
            let log = (old(endpoint).log(), final(endpoint).log());
            &&& step is Sleep <==> config.latency is Some
            &&& step matches SendStep::Sleep { latency, message: kept } ==> {
                &&& config.latency == Some(latency)
                &&& kept@ == message@
                &&& fails.1 == fails.0
                &&& drops.1 == drops.0
                &&& log.1 == log.0
            }
        }),
        final(endpoint).config() == old(endpoint).config(),
        final(endpoint).sending_handle() == old(endpoint).sending_handle(),
        final(endpoint).receiving_handle() == old(endpoint).receiving_handle(),
{
}

/// With confirmed delivery and no latency, a send on an endpoint waits for the queue to take
/// the very message, no longer than the configured timeout, whatever losses are to be injected;
/// nothing changes, and the queue is offered nothing else.
pub proof fn endpoint_waits_for_confirmation(
    endpoint: &mut MemChannel,
    message: Vec<u8>,
    step: SendStep,
)
    requires
        call_ensures(MemChannel::start_send, (endpoint, message), step),
        !(old(endpoint).config().max_message_len matches Some(max) && message@.len() > max),
        old(endpoint).fails() == 0,
        old(endpoint).config().latency is None,
        old(endpoint).config().delivery is Confirmed,
    ensures
        ({
            let config = old(endpoint).config();
            let drops = (old(endpoint).drops(), final(endpoint).drops());
            let fails = (old(endpoint).fails(), final(endpoint).fails());
            let log = (old(endpoint).log(), final(endpoint).log());
            &&& step matches SendStep::Enqueue { message: kept, timeout } && kept@ == message@
                && timeout == config.send_timeout
            &&& fails.1 == fails.0
            &&& drops.1 == drops.0
            &&& log.1 == log.0
        }),
        final(endpoint).config() == old(endpoint).config(),
        final(endpoint).sending_handle() == old(endpoint).sending_handle(),
        final(endpoint).receiving_handle() == old(endpoint).receiving_handle(),
{
}

/// With confirmed delivery, a send on an endpoint that has slept waits for the queue to take
/// the very message, no longer than the configured timeout, whatever losses are to be injected;
/// nothing changes, and the queue is offered nothing else.
pub proof fn endpoint_waits_for_confirmation_after_its_latency(
    endpoint: &mut MemChannel,
    message: Vec<u8>,
    step: SendStep,
)
    requires
        call_ensures(MemChannel::resume_send, (endpoint, message), step),
        old(endpoint).config().delivery is Confirmed,
    ensures
        ({
            let config = old(endpoint).config();
            let drops = (old(endpoint).drops(), final(endpoint).drops());
            let fails = (old(endpoint).fails(), final(endpoint).fails());
            let log = (old(endpoint).log(), final(endpoint).log());
            &&& step matches SendStep::Enqueue { message: kept, timeout } && kept@ == message@
                && timeout == config.send_timeout
            &&& fails.1 == fails.0
            &&& drops.1 == drops.0
            &&& log.1 == log.0
        }),
        final(endpoint).config() == old(endpoint).config(),
        final(endpoint).sending_handle() == old(endpoint).sending_handle(),
        final(endpoint).receiving_handle() == old(endpoint).receiving_handle(),
{
}

/// With best-effort delivery and no latency, a send on an endpoint is over at once. The queue
/// is asked once whether it is closed. If it is, that is reported and no loss is used up. If
/// not, and losses are to be injected, one is used up, the send succeeds and the queue is
/// offered nothing. If there is none, the queue is offered the very message, once, and the send
/// fails exactly where it is closed by then.
pub proof fn endpoint_tries_its_best(
    endpoint: &mut MemChannel,
    message: Vec<u8>,
    step: SendStep,
)
    requires
        call_ensures(MemChannel::start_send, (endpoint, message), step),
        !(old(endpoint).config().max_message_len matches Some(max) && message@.len() > max),
        old(endpoint).fails() == 0,
        old(endpoint).config().latency is None,
        old(endpoint).config().delivery is BestEffort,
    ensures
        ({
            let drops = (old(endpoint).drops(), final(endpoint).drops());
            let fails = (old(endpoint).fails(), final(endpoint).fails());
            let log = (old(endpoint).log(), final(endpoint).log());
            let start = log.0.len() as int;
            &&& fails.1 == fails.0
            &&& log.1.len() > start && log.1.take(start) == log.0
            &&& log.1[start] matches Contact::Asked(closed) && {
                &&& closed ==> {
                    &&& step matches SendStep::Finished(Err(SendError::Closed))
                    &&& drops.1 == drops.0
                    &&& log.1.len() == start + 1
                }
                &&& !closed && drops.0 > 0 ==> {
                    &&& step matches SendStep::Finished(Ok(()))
                    &&& drops.1 + 1 == drops.0
                    &&& log.1.len() == start + 1
                }
                &&& !closed && drops.0 == 0 ==> {
                    &&& drops.1 == 0
                    &&& log.1.len() == start + 2
                    &&& log.1[start + 1] matches Contact::Offered(offered, attempt) && {
                        &&& offered == message@
                        &&& attempt is Closed ==> (step matches SendStep::Finished(
                            Err(SendError::Closed),
                        ))
                        &&& !(attempt is Closed) ==> (step matches SendStep::Finished(Ok(())))
                    }
                }
            }
        }),
        final(endpoint).config() == old(endpoint).config(),
        final(endpoint).sending_handle() == old(endpoint).sending_handle(),
        final(endpoint).receiving_handle() == old(endpoint).receiving_handle(),
{
    longer_log(
        message@,
        old(endpoint).drops(),
        old(endpoint).log(),
        final(endpoint).log(),
    );
}

/// With best-effort delivery, a send on an endpoint that has slept is over at once, and asks,
/// loses and offers the same as one that did not have to sleep.
pub proof fn endpoint_tries_its_best_after_its_latency(
    endpoint: &mut MemChannel,
    message: Vec<u8>,
    step: SendStep,
)
    requires
        call_ensures(MemChannel::resume_send, (endpoint, message), step),
        old(endpoint).config().delivery is BestEffort,
    ensures
        ({
            let drops = (old(endpoint).drops(), final(endpoint).drops());
            let fails = (old(endpoint).fails(), final(endpoint).fails());
            let log = (old(endpoint).log(), final(endpoint).log());
            let start = log.0.len() as int;
            &&& fails.1 == fails.0
            &&& log.1.len() > start && log.1.take(start) == log.0
            &&& log.1[start] matches Contact::Asked(closed) && {
                &&& closed ==> {
                    &&& step matches SendStep::Finished(Err(SendError::Closed))
                    &&& drops.1 == drops.0
                    &&& log.1.len() == start + 1
                }
                &&& !closed && drops.0 > 0 ==> {
                    &&& step matches SendStep::Finished(Ok(()))
                    &&& drops.1 + 1 == drops.0
                    &&& log.1.len() == start + 1
                }
                &&& !closed && drops.0 == 0 ==> {
                    &&& drops.1 == 0
                    &&& log.1.len() == start + 2
                    &&& log.1[start + 1] matches Contact::Offered(offered, attempt) && {
                        &&& offered == message@
                        &&& attempt is Closed ==> (step matches SendStep::Finished(
                            Err(SendError::Closed),
                        ))
                        &&& !(attempt is Closed) ==> (step matches SendStep::Finished(Ok(())))
                    }
                }
            }
        }),
        final(endpoint).config() == old(endpoint).config(),
        final(endpoint).sending_handle() == old(endpoint).sending_handle(),
        final(endpoint).receiving_handle() == old(endpoint).receiving_handle(),
{
    longer_log(
        message@,
        old(endpoint).drops(),
        old(endpoint).log(),
        final(endpoint).log(),
    );
}

/// A message longer than the configured limit, and no other, is refused with that limit when it
/// is sent through a half, whatever faults are to be injected, and nothing changes: the queue
/// is neither asked nor offered anything.
pub proof fn half_refuses_longer_messages(
    half: &mut MemSendHalf<'_>,
    message: Vec<u8>,
    step: SendStep,
)
    requires
        call_ensures(MemSendHalf::start_send, (half, message), step),
    ensures
        ({
            let config = *old(half).config;
            let drops = (*old(half).drop_next, *final(half).drop_next);
            let fails = (*old(half).fail_next, *final(half).fail_next);
            let log = (old(half).outlet.log(), final(half).outlet.log());
            let over = config.max_message_len matches Some(max) && message@.len() > max;
            &&& (step matches SendStep::Finished(Err(SendError::TooLarge { .. }))) <==> over
            &&& step matches SendStep::Finished(Err(SendError::TooLarge { max })) ==> {
                &&& config.max_message_len == Some(max)
                &&& fails.1 == fails.0
                &&& drops.1 == drops.0
                &&& log.1 == log.0
            }
        }),
        *final(half).config == *old(half).config,
        final(half).outlet.handle() == old(half).outlet.handle(),
{
}

/// While failures are to be injected, a send through a half within the limit fails with one of
/// them, which is used up, and nothing else changes; without any it does not fail like that.
pub proof fn half_fails_as_often_as_asked(
    half: &mut MemSendHalf<'_>,
    message: Vec<u8>,
    step: SendStep,
)
    requires
        call_ensures(MemSendHalf::start_send, (half, message), step),
        !(old(half).config.max_message_len matches Some(max) && message@.len() > max),
    ensures
        ({
            let drops = (*old(half).drop_next, *final(half).drop_next);
            let fails = (*old(half).fail_next, *final(half).fail_next);
            let log = (old(half).outlet.log(), final(half).outlet.log());
            &&& fails.0 > 0 <==> (step matches SendStep::Finished(Err(SendError::Transport(_))))
            &&& fails.0 > 0 ==> {
                &&& step matches SendStep::Finished(Err(SendError::Transport(Cause::Text(words))))
                    && words@ == "injected failure"@
                &&& fails.1 + 1 == fails.0
                &&& drops.1 == drops.0
                &&& log.1 == log.0
            }
            &&& fails.0 == 0 ==> fails.1 == 0
        }),
        *final(half).config == *old(half).config,
        final(half).outlet.handle() == old(half).outlet.handle(),
{
}

/// Where a latency is configured, a send through a half that is not to be refused or to fail
/// sleeps for it with the very message, and nothing changes; otherwise it does not sleep.
pub proof fn half_sleeps_for_its_latency(
    half: &mut MemSendHalf<'_>,
    message: Vec<u8>,
    step: SendStep,
)
    requires
        call_ensures(MemSendHalf::start_send, (half, message), step),
        !(old(half).config.max_message_len matches Some(max) && message@.len() > max),
        *old(half).fail_next == 0,
    ensures
        ({
            let config = *old(half).config;
            let drops = (*old(half).drop_next, *final(half).drop_next);
            let fails = (*old(half).fail_next, *final(half).fail_next);
            let log = (old(half).outlet.log(), final(half).outlet.log());
            &&& step is Sleep <==> config.latency is Some
            &&& step matches SendStep::Sleep { latency, message: kept } ==> {
                &&& config.latency == Some(latency)
                &&& kept@ == message@
                &&& fails.1 == fails.0
                &&& drops.1 == drops.0
                &&& log.1 == log.0
            }
        }),
        *final(half).config == *old(half).config,
        final(half).outlet.handle() == old(half).outlet.handle(),
{
}

/// With confirmed delivery and no latency, a send through a half waits for the queue to take
/// the very message, no longer than the configured timeout, whatever losses are to be injected;
/// nothing changes, and the queue is offered nothing else.
pub proof fn half_waits_for_confirmation(
    half: &mut MemSendHalf<'_>,
    message: Vec<u8>,
    step: SendStep,
)
    requires
        call_ensures(MemSendHalf::start_send, (half, message), step),
        !(old(half).config.max_message_len matches Some(max) && message@.len() > max),
        *old(half).fail_next == 0,
        old(half).config.latency is None,
        old(half).config.delivery is Confirmed,
    ensures
        ({
            let config = *old(half).config;
            let drops = (*old(half).drop_next, *final(half).drop_next);
            let fails = (*old(half).fail_next, *final(half).fail_next);
            let log = (old(half).outlet.log(), final(half).outlet.log());
            &&& step matches SendStep::Enqueue { message: kept, timeout } && kept@ == message@
                && timeout == config.send_timeout
            &&& fails.1 == fails.0
            &&& drops.1 == drops.0
            &&& log.1 == log.0
        }),
        *final(half).config == *old(half).config,
        final(half).outlet.handle() == old(half).outlet.handle(),
{
}

/// With confirmed delivery, a send through a half that has slept waits for the queue to take
/// the very message, no longer than the configured timeout, whatever losses are to be injected;
/// nothing changes, and the queue is offered nothing else.
pub proof fn half_waits_for_confirmation_after_its_latency(
    half: &mut MemSendHalf<'_>,
    message: Vec<u8>,
    step: SendStep,
)
    requires
        call_ensures(MemSendHalf::resume_send, (half, message), step),
        old(half).config.delivery is Confirmed,
    ensures
        ({
            let config = *old(half).config;
            let drops = (*old(half).drop_next, *final(half).drop_next);
            let fails = (*old(half).fail_next, *final(half).fail_next);
            let log = (old(half).outlet.log(), final(half).outlet.log());
            &&& step matches SendStep::Enqueue { message: kept, timeout } && kept@ == message@
                && timeout == config.send_timeout
            &&& fails.1 == fails.0
            &&& drops.1 == drops.0
            &&& log.1 == log.0
        }),
        *final(half).config == *old(half).config,
        final(half).outlet.handle() == old(half).outlet.handle(),
{
}

/// With best-effort delivery and no latency, a send through a half is over at once. The queue
/// is asked once whether it is closed. If it is, that is reported and no loss is used up. If
/// not, and losses are to be injected, one is used up, the send succeeds and the queue is
/// offered nothing. If there is none, the queue is offered the very message, once, and the send
/// fails exactly where it is closed by then.
pub proof fn half_tries_its_best(
    half: &mut MemSendHalf<'_>,
    message: Vec<u8>,
    step: SendStep,
)
    requires
        call_ensures(MemSendHalf::start_send, (half, message), step),
        !(old(half).config.max_message_len matches Some(max) && message@.len() > max),
        *old(half).fail_next == 0,
        old(half).config.latency is None,
        old(half).config.delivery is BestEffort,
    ensures
        ({
            let drops = (*old(half).drop_next, *final(half).drop_next);
            let fails = (*old(half).fail_next, *final(half).fail_next);
            let log = (old(half).outlet.log(), final(half).outlet.log());
            let start = log.0.len() as int;
            &&& fails.1 == fails.0
            &&& log.1.len() > start && log.1.take(start) == log.0
            &&& log.1[start] matches Contact::Asked(closed) && {
                &&& closed ==> {
                    &&& step matches SendStep::Finished(Err(SendError::Closed))
                    &&& drops.1 == drops.0
                    &&& log.1.len() == start + 1
                }
                &&& !closed && drops.0 > 0 ==> {
                    &&& step matches SendStep::Finished(Ok(()))
                    &&& drops.1 + 1 == drops.0
                    &&& log.1.len() == start + 1
                }
                &&& !closed && drops.0 == 0 ==> {
                    &&& drops.1 == 0
                    &&& log.1.len() == start + 2
                    &&& log.1[start + 1] matches Contact::Offered(offered, attempt) && {
                        &&& offered == message@
                        &&& attempt is Closed ==> (step matches SendStep::Finished(
                            Err(SendError::Closed),
                        ))
                        &&& !(attempt is Closed) ==> (step matches SendStep::Finished(Ok(())))
                    }
                }
            }
        }),
        *final(half).config == *old(half).config,
        final(half).outlet.handle() == old(half).outlet.handle(),
{
    longer_log(
        message@,
        *old(half).drop_next as nat,
        old(half).outlet.log(),
        final(half).outlet.log(),
    );
}

/// With best-effort delivery, a send through a half that has slept is over at once, and asks,
/// loses and offers the same as one that did not have to sleep.
pub proof fn half_tries_its_best_after_its_latency(
    half: &mut MemSendHalf<'_>,
    message: Vec<u8>,
    step: SendStep,
)
    requires
        call_ensures(MemSendHalf::resume_send, (half, message), step),
        old(half).config.delivery is BestEffort,
    ensures
        ({
            let drops = (*old(half).drop_next, *final(half).drop_next);
            let fails = (*old(half).fail_next, *final(half).fail_next);
            let log = (old(half).outlet.log(), final(half).outlet.log());
            let start = log.0.len() as int;
            &&& fails.1 == fails.0
            &&& log.1.len() > start && log.1.take(start) == log.0
            &&& log.1[start] matches Contact::Asked(closed) && {
                &&& closed ==> {
                    &&& step matches SendStep::Finished(Err(SendError::Closed))
                    &&& drops.1 == drops.0
                    &&& log.1.len() == start + 1
                }
                &&& !closed && drops.0 > 0 ==> {
                    &&& step matches SendStep::Finished(Ok(()))
                    &&& drops.1 + 1 == drops.0
                    &&& log.1.len() == start + 1
                }
                &&& !closed && drops.0 == 0 ==> {
                    &&& drops.1 == 0
                    &&& log.1.len() == start + 2
                    &&& log.1[start + 1] matches Contact::Offered(offered, attempt) && {
                        &&& offered == message@
                        &&& attempt is Closed ==> (step matches SendStep::Finished(
                            Err(SendError::Closed),
                        ))
                        &&& !(attempt is Closed) ==> (step matches SendStep::Finished(Ok(())))
                    }
                }
            }
        }),
        *final(half).config == *old(half).config,
        final(half).outlet.handle() == old(half).outlet.handle(),
{
    longer_log(
        message@,
        *old(half).drop_next as nat,
        old(half).outlet.log(),
        final(half).outlet.log(),
    );
}

/// What a best-effort delivery adds to a log stands behind what was there.
proof fn longer_log(
    message: Seq<u8>,
    drops: nat,
    before: Seq<Contact>,
    after: Seq<Contact>,
)
    ensures
        forall|closed: bool, attempt: AttemptView|
            after == before + #[trigger] crate::mem::contacts(message, drops, closed, attempt)
                ==> after.take(before.len() as int) == before,
{
    assert forall|closed: bool, attempt: AttemptView|
        after == before + #[trigger] crate::mem::contacts(
            message,
            drops,
            closed,
            attempt,
        ) implies after.take(before.len() as int) == before by {
        assert(after.take(before.len() as int) =~= before);
    }
}

/// The halves of an endpoint are its two directions, with its configuration and its faults to
/// inject; what they change is changed of the endpoint, and nothing else is.
pub proof fn halves_are_their_endpoint(
    endpoint: &mut MemChannel,
    halves: (MemSendHalf<'_>, MemRecvHalf<'_>),
)
    requires
        call_ensures(MemChannel::split, (endpoint,), halves),
    ensures
        old(halves.0.outlet).handle() == old(endpoint).sending_handle(),
        old(halves.0.outlet).log() == old(endpoint).log(),
        *halves.0.config == old(endpoint).config(),
        *old(halves.0.drop_next) == old(endpoint).drops(),
        *old(halves.0.fail_next) == old(endpoint).fails(),
        *old(halves.1.receiver) == old(endpoint).receiving_handle(),
        final(endpoint).sending_handle() == final(halves.0.outlet).handle(),
        final(endpoint).log() == final(halves.0.outlet).log(),
        final(endpoint).drops() == *final(halves.0.drop_next),
        final(endpoint).fails() == *final(halves.0.fail_next),
        final(endpoint).receiving_handle() == *final(halves.1.receiver),
        final(endpoint).config() == old(endpoint).config(),
{
}

/// The handles that an endpoint and its halves lend are those of its queues.
pub proof fn endpoint_lends_its_own_handles(
    endpoint: MemChannel,
    sender: &mpsc::Sender<Vec<u8>>,
    lending: &mut MemChannel,
    receiver: &mut mpsc::Receiver<Vec<u8>>,
    half: MemSendHalf<'_>,
    half_sender: &mpsc::Sender<Vec<u8>>,
    receiving: &mut MemRecvHalf<'_>,
    half_receiver: &mut mpsc::Receiver<Vec<u8>>,
)
    requires
        call_ensures(MemRecvHalf::receiver, (receiving,), half_receiver),
        call_ensures(MemChannel::sender, (&endpoint,), sender),
        call_ensures(MemChannel::receiver, (lending,), receiver),
        call_ensures(MemSendHalf::sender, (&half,), half_sender),
    ensures
        *sender == endpoint.sending_handle(),
        *old(receiver) == old(lending).receiving_handle(),
        final(lending).receiving_handle() == *final(receiver),
        final(lending).sending_handle() == old(lending).sending_handle(),
        final(lending).log() == old(lending).log(),
        final(lending).drops() == old(lending).drops(),
        final(lending).fails() == old(lending).fails(),
        final(lending).config() == old(lending).config(),
        *half_sender == old(half.outlet).handle(),
        *old(half_receiver) == *old(receiving).receiver,
        *final(receiving).receiver == *final(half_receiver),
{
}

/// A channel that was configured with a limit refuses exactly the longer messages, from the
/// first send on, whatever faults are to be injected; and after `count` failures were asked
/// for, a send within the limit fails exactly where `count` is not zero.
pub proof fn configured_channel_keeps_its_limit(
    config: MemConfig,
    ends: (MemChannel, MemChannel),
    failing: &mut MemChannel,
    count: usize,
    sending: &mut MemChannel,
    message: Vec<u8>,
    step: SendStep,
)
    requires
        call_ensures(duplex, (config,), ends),
        *old(failing) == ends.0,
        call_ensures(MemChannel::fail_next, (failing, count), ()),
        *old(sending) == *final(failing),
        call_ensures(MemChannel::start_send, (sending, message), step),
    ensures
        (step matches SendStep::Finished(Err(SendError::TooLarge { .. }))) <==> (
        config.max_message_len matches Some(max) && message@.len() > max),
        (step matches SendStep::Finished(Err(SendError::Transport(_)))) <==> count > 0 && !(
        config.max_message_len matches Some(max) && message@.len() > max),
        count == 0 && config == (MemConfig {
            capacity: config.capacity,
            max_message_len: None,
            latency: None,
            send_timeout: None,
            delivery: Delivery::Confirmed,
        }) ==> (step matches SendStep::Enqueue { message: kept, timeout: None } && kept@
            == message@),
{
}

/// A new network has one queue between its builder and its listener, with a place for eight
/// channels; a builder that was cloned hands its channels to the same listener.
pub proof fn new_network_is_connected(
    config: MemConfig,
    ends: (MemChannelBuilder, MemListener),
    other: MemChannelBuilder,
    incoming: &mpsc::Sender<MemChannel>,
    listening: &mut MemListener,
    accepting: &mut mpsc::Receiver<MemChannel>,
)
    requires
        call_ensures(network, (config,), ends),
        call_ensures(<MemChannelBuilder as Clone>::clone, (&ends.0,), other),
        call_ensures(MemChannelBuilder::incoming, (&ends.0,), incoming),
        *old(listening) == ends.1,
        call_ensures(MemListener::incoming, (listening,), accepting),
    ensures
        BACKLOG == 8,
        call_ensures(mpsc::channel::<MemChannel>, (8,), (*incoming, *old(accepting))),
        final(listening).handle() == *final(accepting),
        ends.0.config() == config,
        other.config() == config,
        call_ensures(
            <mpsc::Sender<MemChannel> as Clone>::clone,
            (&ends.0.handle(),),
            other.handle(),
        ),
{
}

/// A builder makes connected endpoints with the configuration of its network, and yields the
/// local one exactly where the remote one was handed over.
pub proof fn built_endpoints_are_connected(
    config: MemConfig,
    ends: (MemChannelBuilder, MemListener),
    address: MemAddr,
    made: (MemChannel, MemChannel),
    capacity: usize,
    handed_over: bool,
    built: Result<MemChannel, BuildError>,
)
    requires
        call_ensures(network, (config,), ends),
        call_ensures(MemChannelBuilder::start_build, (&ends.0, &address), made),
        call_ensures(MemChannelBuilder::finish_build, (made.0, handed_over), built),
        config.capacity matches Some(asked) ==> capacity == if asked == 0 {
            1
        } else {
            asked as int
        },
        config.capacity is None ==> capacity == 1,
    ensures
        call_ensures(
            mpsc::channel::<Vec<u8>>,
            (capacity,),
            (made.0.sending_handle(), made.1.receiving_handle()),
        ),
        call_ensures(
            mpsc::channel::<Vec<u8>>,
            (capacity,),
            (made.1.sending_handle(), made.0.receiving_handle()),
        ),
        made.0.config() == config,
        made.1.config() == config,
        made.0.log().len() == 0,
        made.1.log().len() == 0,
        made.0.drops() == 0,
        made.1.drops() == 0,
        made.0.fails() == 0,
        made.1.fails() == 0,
        handed_over ==> built == Ok::<MemChannel, BuildError>(made.0),
        !handed_over ==> (built matches Err(BuildError::Unreachable)),
{
}

/// A listener yields the channel that was handed over, and finds its builders unreachable
/// exactly where there is none.
pub proof fn listener_yields_what_was_handed_over(
    received: Option<MemChannel>,
    built: Result<MemChannel, BuildError>,
)
    requires
        call_ensures(MemListener::finish_build, (received,), built),
    ensures
        received matches Some(channel) ==> built == Ok::<MemChannel, BuildError>(channel),
        received is None ==> (built matches Err(BuildError::Unreachable)),
{
}

/// The offers of a log are its offered messages in order, and its entries are those that
/// entered.
pub proof fn log_tells_offers_and_entries(
    log: Seq<Contact>,
    closed: bool,
    message: Seq<u8>,
    attempt: AttemptView,
)
    ensures
        offers(Seq::empty()).len() == 0,
        entries(Seq::empty()).len() == 0,
        offers(log.push(Contact::Asked(closed))) == offers(log),
        entries(log.push(Contact::Asked(closed))) == entries(log),
        offers(log.push(Contact::Offered(message, attempt))) == offers(log).push(message),
        entries(log.push(Contact::Offered(message, attempt))) == if attempt is Entered {
            entries(log).push(message)
        } else {
            entries(log)
        },
{
    assert(log.push(Contact::Asked(closed)).drop_last() =~= log);
    assert(log.push(Contact::Offered(message, attempt)).drop_last() =~= log);
}

/// A queue can be as large as Tokio lets it be.
pub proof fn largest_capacity()
    ensures
        MAX_CAPACITY == usize::MAX / 8,
{
}

/// Whatever the token, an echoing channel is built, and receives from the very queue that it
/// sends into, which holds one message; its halves are the two ends of that queue.
pub proof fn echo_receives_what_it_sends(
    builder: &mut EchoBuilder,
    token: Vec<u8>,
    built: Result<Echo, BuildError>,
    echo: &mut Echo,
    halves: (EchoSender<'_>, EchoReceiver<'_>),
)
    requires
        call_ensures(EchoBuilder::build, (builder, &token), built),
        built is Ok ==> *old(echo) == built->Ok_0,
        call_ensures(Echo::split, (echo,), halves),
    ensures
        built is Ok,
        call_ensures(
            mpsc::channel::<Vec<u8>>,
            (1,),
            (*halves.0.sender, *old(halves.1.receiver)),
        ),
        final(echo).sending_handle() == *halves.0.sender,
        final(echo).receiving_handle() == *final(halves.1.receiver),
{
}

/// An echoing channel reports closure exactly where its queue took no message, or gave none;
/// what the queue gave is yielded byte for byte.
pub proof fn echo_reports_closure(
    taken: bool,
    sent: Result<(), SendError>,
    given: Option<Vec<u8>>,
    received: Result<Vec<u8>, RecvError>,
)
    requires
        call_ensures(echo_sent, (taken,), sent),
        call_ensures(echo_received, (given,), received),
    ensures
        sent is Ok <==> taken,
        sent matches Err(error) ==> error is Closed,
        received is Ok <==> given is Some,
        given matches Some(message) ==> (received matches Ok(yielded) && yielded@ == message@),
        received matches Err(error) ==> error is Closed,
{
}

/// A queue of messages has the capacity that was asked for, its outlet lends the handle of its
/// own end, and nothing was asked of it yet.
pub proof fn new_outlet_is_connected(
    capacity: usize,
    ends: (Outlet, mpsc::Receiver<Vec<u8>>),
    sender: &mpsc::Sender<Vec<u8>>,
)
    requires
        call_ensures(outlet, (capacity,), ends),
        call_ensures(Outlet::sender, (&ends.0,), sender),
    ensures
        call_ensures(mpsc::channel::<Vec<u8>>, (capacity,), (*sender, ends.1)),
        *sender == ends.0.handle(),
        ends.0.log().len() == 0,
{
}

/// Endpoints can be made for every configuration whose capacity a queue can have, and used in
/// every state.
pub proof fn endpoints_are_always_usable(
    config: MemConfig,
    endpoint: &mut MemChannel,
    half: &mut MemSendHalf<'_>,
    count: usize,
    message: Vec<u8>,
    ends: (MemChannelBuilder, MemListener),
    address: MemAddr,
    enqueued: Enqueued,
    received: Option<Vec<u8>>,
    accepted: Option<MemChannel>,
)
    requires
        config.capacity matches Some(capacity) ==> capacity <= usize::MAX / 8,
        call_ensures(network, (config,), ends),
    ensures
        call_requires(duplex, (config,)),
        call_requires(network, (config,)),
        call_requires(MemChannelBuilder::start_build, (&ends.0, &address)),
        call_requires(MemListener::finish_build, (accepted,)),
        call_requires(prepare, (&config, message)),
        call_requires(MemChannel::drop_next, (endpoint, count)),
        call_requires(MemChannel::fail_next, (endpoint, count)),
        call_requires(MemChannel::start_send, (endpoint, message)),
        call_requires(MemChannel::resume_send, (endpoint, message)),
        call_requires(MemSendHalf::start_send, (half, message)),
        call_requires(MemSendHalf::resume_send, (half, message)),
        call_requires(finish_send, (enqueued,)),
        call_requires(finish_recv, (received,)),
{
}

} // verus!
