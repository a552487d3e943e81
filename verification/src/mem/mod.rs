//! In-memory channels for deterministic transport and consumer tests.
//!
//! A duplex channel uses two crossed bounded queues. Capacity defaults to one
//! so tests encounter backpressure without additional configuration.
//!
//! Sending is a sequence of decisions with waiting in between. [`MemChannel::start_send`]
//! takes the first decisions and says what to wait for; [`MemChannel::resume_send`]
//! goes on after the latency has passed; [`finish_send`] closes with what became of
//! the message in the queue. Waiting itself is left to the caller.

pub mod laws;



use std::time::Duration;

use tokio::sync::mpsc;
use vstd::prelude::*;

use crate::error::{BuildError, Cause, RecvError, SendError};
use crate::queue::{outlet, Attempt, Outlet, MAX_CAPACITY};

verus! {

use crate::error::{
    build_outcome, recv_outcome, send_outcome, BuildFailure, CauseView, RecvFailure, SendFailure,
};
use crate::queue::{attempt_view, cloned_from, queue_of, AttemptView, Contact};

/// Delivery behavior simulated by an in-memory sender.
#[derive(Debug, Clone, Copy, PartialEq, Eq, Structural)]
pub enum Delivery {
    /// Wait until the message enters the peer's queue.
    Confirmed,
    /// Return after a non-blocking delivery attempt; loss is silent.
    BestEffort,
}

impl Default for Delivery {
    fn default() -> (delivery: Self)
        ensures
            delivery == Delivery::Confirmed,
    {
        Delivery::Confirmed
    }
}

/// Configuration shared by both ends of an in-memory channel.
#[derive(Debug, Clone, Copy)]
pub struct MemConfig {
    /// Queue capacity per direction. Missing or zero capacity becomes one.
    pub capacity: Option<usize>,
    /// Maximum message length in bytes.
    pub max_message_len: Option<usize>,
    /// Delay applied before each delivery attempt.
    pub latency: Option<Duration>,
    /// Internal deadline for confirmed delivery into the peer's queue.
    pub send_timeout: Option<Duration>,
    /// Delivery behavior for this channel.
    pub delivery: Delivery,
}

impl Default for MemConfig {
    fn default() -> (config: Self)
        ensures
            config == (MemConfig {
                capacity: None,
                max_message_len: None,
                latency: None,
                send_timeout: None,
                delivery: Delivery::Confirmed,
            }),
    {
        MemConfig {
            capacity: None,
            max_message_len: None,
            latency: None,
            send_timeout: None,
            delivery: Delivery::Confirmed,
        }
    }
}

impl MemConfig {
    /// How many messages a queue of a channel with this configuration holds.
    pub open spec fn queue_capacity(self) -> usize {
        match self.capacity {
            Some(capacity) => if capacity == 0 {
                1
            } else {
                capacity
            },
            None => 1,
        }
    }
}

/// Takes one from a counter of injected faults, and says whether there was one to
/// take.
pub fn take_one(counter: &mut usize) -> (taken: bool)
    ensures
        taken == (*old(counter) > 0),
        *final(counter) == if *old(counter) > 0 {
            *old(counter) - 1
        } else {
            0
        },
{
    if *counter > 0 {
        *counter = *counter - 1;
        true
    } else {
        false
    }
}

/// A message held against the limit, as a mathematical value: the message itself where
/// it is within the limit, and otherwise the limit.
pub open spec fn held_to_limit(config: MemConfig, message: Seq<u8>) -> Result<Seq<u8>, nat> {
    match config.max_message_len {
        Some(max) => if message.len() > max {
            Err(max as nat)
        } else {
            Ok(message)
        },
        None => Ok(message),
    }
}

/// The mathematical value of a message that was held against the limit.
pub open spec fn prepared_view(prepared: Result<Vec<u8>, usize>) -> Result<Seq<u8>, nat> {
    match prepared {
        Ok(message) => Ok(message@),
        Err(max) => Err(max as nat),
    }
}

/// Holds a message against the limit: the message itself where it is within the
/// limit, and otherwise the limit.
pub fn prepare(config: &MemConfig, message: Vec<u8>) -> (prepared: Result<Vec<u8>, usize>)
    ensures
        prepared_view(prepared) == held_to_limit(*config, message@),
{
    match config.max_message_len {
        Some(max) => if message.len() > max {
            Err(max)
        } else {
            Ok(message)
        },
        None => Ok(message),
    }
}

/// What a send does next.
#[derive(Debug)]
pub enum SendStep {
    /// The send is over.
    Finished(Result<(), SendError>),
    /// Wait for the latency to pass, then go on with the message.
    Sleep { latency: Duration, message: Vec<u8> },
    /// Wait until the queue takes the message, but no longer than the timeout.
    Enqueue { message: Vec<u8>, timeout: Option<Duration> },
}

/// The mathematical value of a [`SendStep`].
pub ghost enum SendStepView {
    Finished(Result<(), SendFailure>),
    Sleep { latency: Duration, message: Seq<u8> },
    Enqueue { message: Seq<u8>, timeout: Option<Duration> },
}

impl View for SendStep {
    type V = SendStepView;

    open spec fn view(&self) -> SendStepView {
        match self {
            SendStep::Finished(result) => SendStepView::Finished(send_outcome(*result)),
            SendStep::Sleep { latency, message } => SendStepView::Sleep {
                latency: *latency,
                message: message@,
            },
            SendStep::Enqueue { message, timeout } => SendStepView::Enqueue {
                message: message@,
                timeout: *timeout,
            },
        }
    }
}

/// What a best-effort send makes of an attempt: a full queue loses the message
/// silently, a closed one does not.
pub open spec fn attempt_outcome(attempt: AttemptView) -> Result<(), SendFailure> {
    match attempt {
        AttemptView::Entered => Ok(()),
        AttemptView::Full => Ok(()),
        AttemptView::Closed => Err(SendFailure::Closed),
    }
}

/// What a best-effort send decides before it tries the queue: a closed queue is
/// reported, an injected loss is silent. `None` where the queue is to be tried.
pub open spec fn gate_outcome(closed: bool, drops: nat) -> Option<Result<(), SendFailure>> {
    if closed {
        Some(Err(SendFailure::Closed))
    } else if drops > 0 {
        Some(Ok(()))
    } else {
        None
    }
}

/// How many losses are still to be injected after the decision of
/// [`gate_outcome`].
pub open spec fn gate_drops(closed: bool, drops: nat) -> nat {
    if !closed && drops > 0 {
        (drops - 1) as nat
    } else {
        drops
    }
}

/// The outcome of a best-effort send, given whether the queue was found closed, how many
/// losses were to be injected, and what the attempt comes to where there is one.
pub open spec fn best_effort_outcome(
    closed: bool,
    drops: nat,
    attempt: AttemptView,
) -> Result<(), SendFailure> {
    match gate_outcome(closed, drops) {
        Some(outcome) => outcome,
        None => attempt_outcome(attempt),
    }
}

/// What passes between a best-effort delivery and the queue, given what the queue answers: it is
/// asked whether it is closed, and is offered the message exactly where it is neither found
/// closed nor a loss is to be injected. Otherwise there is no offer, and `attempt` means
/// nothing.
pub open spec fn contacts(
    message: Seq<u8>,
    drops: nat,
    closed: bool,
    attempt: AttemptView,
) -> Seq<Contact> {
    if gate_outcome(closed, drops) is None {
        seq![Contact::Asked(closed), Contact::Offered(message, attempt)]
    } else {
        seq![Contact::Asked(closed)]
    }
}

/// Whether a delivery goes as told: `step` is what follows, the losses still to be injected go
/// from `drops.0` to `drops.1`, and the log of the outlet from `log.0` to `log.1`.
///
/// Confirmed delivery waits for the queue, whatever losses are to be injected, and offers
/// it nothing before. Best-effort delivery is over at once; how it ends rests on what the
/// queue answers: whether it is closed, and what becomes of the message.
pub open spec fn delivers(
    config: MemConfig,
    message: Seq<u8>,
    step: SendStepView,
    drops: (nat, nat),
    log: (Seq<Contact>, Seq<Contact>),
) -> bool {
    match config.delivery {
        Delivery::Confirmed => {
            &&& step == SendStepView::Enqueue { message, timeout: config.send_timeout }
            &&& drops.1 == drops.0
            &&& log.1 == log.0
        },
        Delivery::BestEffort => exists|closed: bool, attempt: AttemptView|
            {
                &&& log.1 == log.0 + #[trigger] contacts(message, drops.0, closed, attempt)
                &&& step == SendStepView::Finished(best_effort_outcome(closed, drops.0, attempt))
                &&& drops.1 == gate_drops(closed, drops.0)
            },
    }
}

/// Decides what a best-effort send does before it tries the queue, given whether
/// the queue was found closed. `None` where the queue is to be tried.
pub fn best_effort_gate(closed: bool, drop_next: &mut usize) -> (decided: Option<
    Result<(), SendError>,
>)
    ensures
        *final(drop_next) == gate_drops(closed, *old(drop_next) as nat),
        match decided {
            Some(result) => gate_outcome(closed, *old(drop_next) as nat) == Some(
                send_outcome(result),
            ),
            None => gate_outcome(closed, *old(drop_next) as nat) is None,
        },
{
    if closed {
        return Some(Err(SendError::Closed));
    }
    if take_one(drop_next) {
        return Some(Ok(()));
    }
    None
}

/// Makes the outcome of a best-effort send of an attempt on the queue.
pub fn best_effort_result(attempt: Attempt) -> (result: Result<(), SendError>)
    ensures
        send_outcome(result) == attempt_outcome(attempt_view(attempt)),
{
    match attempt {
        Ok(()) => Ok(()),
        Err(mpsc::error::TrySendError::Full(_)) => Ok(()),
        Err(mpsc::error::TrySendError::Closed(_)) => Err(SendError::Closed),
    }
}

/// Tries to put a message into the queue without waiting: offers it once. A full queue loses it
/// silently.
pub fn try_send_best_effort(outlet: &mut Outlet, message: Vec<u8>) -> (result: Result<
    (),
    SendError,
>)
    ensures
        exists|attempt: AttemptView|
            {
                &&& final(outlet).log() == old(outlet).log().push(
                    Contact::Offered(message@, attempt),
                )
                &&& send_outcome(result) == #[trigger] attempt_outcome(attempt)
            },
        final(outlet).handle() == old(outlet).handle(),
{
    let sent = outlet.offer(message);
    let ghost attempt = attempt_view(sent);
    let result = best_effort_result(sent);
    assert(send_outcome(result) == attempt_outcome(attempt));
    result
}

/// Goes on with a send once its latency has passed.
fn deliver(
    outlet: &mut Outlet,
    config: &MemConfig,
    drop_next: &mut usize,
    message: Vec<u8>,
) -> (step: SendStep)
    ensures
        delivers(
            *config,
            message@,
            step@,
            (*old(drop_next) as nat, *final(drop_next) as nat),
            (old(outlet).log(), final(outlet).log()),
        ),
        final(outlet).handle() == old(outlet).handle(),
{
    match config.delivery {
        Delivery::Confirmed => SendStep::Enqueue { message, timeout: config.send_timeout },
        Delivery::BestEffort => {
            let ghost log = outlet.log();
            let ghost drops = *drop_next as nat;
            let closed = outlet.is_closed();
            match best_effort_gate(closed, drop_next) {
                Some(result) => {
                    assert(outlet.log() =~= log + contacts(
                        message@,
                        drops,
                        closed,
                        AttemptView::Entered,
                    ));
                    SendStep::Finished(result)
                },
                None => {
                    let ghost asked = outlet.log();
                    let result = try_send_best_effort(outlet, message);
                    proof {
                        let attempt = choose|attempt: AttemptView|
                            {
                                &&& outlet.log() == asked.push(Contact::Offered(message@, attempt))
                                &&& send_outcome(result) == #[trigger] attempt_outcome(attempt)
                            };
                        assert(outlet.log() =~= log + contacts(message@, drops, closed, attempt));
                    }
                    SendStep::Finished(result)
                },
            }
        },
    }
}

/// The failure of a send that was told to fail.
pub open spec fn injected_failure() -> SendFailure {
    SendFailure::Transport(CauseView::Text("injected failure"@))
}

/// Whether a send starts as told: `step` is what follows, the losses still to be injected go
/// from `drops.0` to `drops.1`, the failures from `fails.0` to `fails.1`, and the log of the
/// outlet from `log.0` to `log.1`.
///
/// A message over the limit is refused before anything else happens. Then an
/// injected failure is due, then the latency, then the delivery. The queue is neither asked
/// nor offered anything before the delivery.
pub open spec fn starts(
    config: MemConfig,
    prepared: Result<Seq<u8>, nat>,
    step: SendStepView,
    drops: (nat, nat),
    fails: (nat, nat),
    log: (Seq<Contact>, Seq<Contact>),
) -> bool {
    match prepared {
        Err(max) => {
            &&& step == SendStepView::Finished(Err(SendFailure::TooLarge { max }))
            &&& drops.1 == drops.0
            &&& fails.1 == fails.0
            &&& log.1 == log.0
        },
        Ok(message) => if fails.0 > 0 {
            &&& step == SendStepView::Finished(Err(injected_failure()))
            &&& drops.1 == drops.0
            &&& fails.1 == fails.0 - 1
            &&& log.1 == log.0
        } else {
            &&& fails.1 == 0
            &&& match config.latency {
                Some(latency) => {
                    &&& step == SendStepView::Sleep { latency, message }
                    &&& drops.1 == drops.0
                    &&& log.1 == log.0
                },
                None => delivers(config, message, step, drops, log),
            }
        },
    }
}

/// Starts a send of a message that was held against the limit.
fn send_message(
    outlet: &mut Outlet,
    config: &MemConfig,
    drop_next: &mut usize,
    fail_next: &mut usize,
    message: Result<Vec<u8>, usize>,
) -> (step: SendStep)
    ensures
        starts(
            *config,
            prepared_view(message),
            step@,
            (*old(drop_next) as nat, *final(drop_next) as nat),
            (*old(fail_next) as nat, *final(fail_next) as nat),
            (old(outlet).log(), final(outlet).log()),
        ),
        final(outlet).handle() == old(outlet).handle(),
{
    let message = match message {
        Ok(message) => message,
        Err(max) => return SendStep::Finished(Err(SendError::TooLarge { max })),
    };
    if take_one(fail_next) {
        return SendStep::Finished(
            Err(SendError::Transport(Cause::Text("injected failure".to_owned()))),
        );
    }
    match config.latency {
        Some(latency) => SendStep::Sleep { latency, message },
        None => deliver(outlet, config, drop_next, message),
    }
}

/// What became of a message that was to enter the queue.
#[derive(Debug, Clone, Copy, PartialEq, Eq, Structural)]
pub enum Enqueued {
    /// The queue took the message.
    Accepted,
    /// The receiving end is gone.
    Closed,
    /// The queue did not take the message in time.
    TimedOut,
}

/// The outcome of a confirmed send, by what became of the message.
pub open spec fn enqueue_outcome(enqueued: Enqueued) -> Result<(), SendFailure> {
    match enqueued {
        Enqueued::Accepted => Ok(()),
        Enqueued::Closed => Err(SendFailure::Closed),
        Enqueued::TimedOut => Err(SendFailure::Transport(CauseView::Text("send timed out"@))),
    }
}

/// Finishes a confirmed send with what became of the message.
pub fn finish_send(enqueued: Enqueued) -> (result: Result<(), SendError>)
    ensures
        send_outcome(result) == enqueue_outcome(enqueued),
{
    match enqueued {
        Enqueued::Accepted => Ok(()),
        Enqueued::Closed => Err(SendError::Closed),
        Enqueued::TimedOut => Err(SendError::Transport(Cause::Text("send timed out".to_owned()))),
    }
}

/// The outcome of a receive, by what the queue gave: a message, or nothing where
/// the queue is empty and the sending end is gone.
pub open spec fn receive_outcome(received: Option<Seq<u8>>) -> Result<Seq<u8>, RecvFailure> {
    match received {
        Some(message) => Ok(message),
        None => Err(RecvFailure::Closed),
    }
}

/// Finishes a receive with what the queue gave.
pub fn finish_recv(received: Option<Vec<u8>>) -> (result: Result<Vec<u8>, RecvError>)
    ensures
        recv_outcome(result) == receive_outcome(
            match received {
                Some(message) => Some(message@),
                None => None,
            },
        ),
{
    match received {
        Some(message) => Ok(message),
        None => Err(RecvError::Closed),
    }
}

/// One endpoint of an in-memory duplex channel.
pub struct MemChannel {
    outlet: Outlet,
    receiver: mpsc::Receiver<Vec<u8>>,
    config: MemConfig,
    drop_next: usize,
    fail_next: usize,
}

impl MemChannel {
    /// The configuration of this endpoint.
    pub closed spec fn config(self) -> MemConfig {
        self.config
    }

    /// How many losses are still to be injected.
    pub closed spec fn drops(self) -> nat {
        self.drop_next as nat
    }

    /// How many failures are still to be injected.
    pub closed spec fn fails(self) -> nat {
        self.fail_next as nat
    }

    /// The handle that this endpoint sends with.
    pub closed spec fn sending_handle(self) -> mpsc::Sender<Vec<u8>> {
        self.outlet.handle()
    }

    /// What passed between this endpoint and the peer's queue, but for what was waited for.
    pub closed spec fn log(self) -> Seq<Contact> {
        self.outlet.log()
    }

    /// The handle that this endpoint receives with.
    pub closed spec fn receiving_handle(self) -> mpsc::Receiver<Vec<u8>> {
        self.receiver
    }

    /// Whether this endpoint has kept its queues and its configuration from
    /// `before`.
    pub open spec fn same_wiring(self, before: Self) -> bool {
        &&& self.config() == before.config()
        &&& self.sending_handle() == before.sending_handle()
        &&& self.receiving_handle() == before.receiving_handle()
    }

    /// Silently discard the next `count` best-effort delivery attempts.
    ///
    /// Confirmed delivery ignores this setting.
    pub fn drop_next(&mut self, count: usize)
        ensures
            final(self).drops() == count,
            final(self).log() == old(self).log(),
            final(self).fails() == old(self).fails(),
            final(self).same_wiring(*old(self)),
    {
        self.drop_next = count;
    }

    /// Fail the next `count` delivery attempts with a transport error.
    pub fn fail_next(&mut self, count: usize)
        ensures
            final(self).fails() == count,
            final(self).log() == old(self).log(),
            final(self).drops() == old(self).drops(),
            final(self).same_wiring(*old(self)),
    {
        self.fail_next = count;
    }

    /// The handle to put messages into the peer's queue with.
    pub fn sender(&self) -> (sender: &mpsc::Sender<Vec<u8>>)
        ensures
            *sender == self.sending_handle(),
    {
        self.outlet.sender()
    }

    /// The handle to take messages from this endpoint's queue with.
    pub fn receiver(&mut self) -> (receiver: &mut mpsc::Receiver<Vec<u8>>)
        ensures
            *receiver == old(self).receiving_handle(),
            final(self).receiving_handle() == *final(receiver),
            final(self).sending_handle() == old(self).sending_handle(),
            final(self).config() == old(self).config(),
            final(self).drops() == old(self).drops(),
            final(self).fails() == old(self).fails(),
            final(self).log() == old(self).log(),
    {
        &mut self.receiver
    }

    /// Starts a send.
    pub fn start_send(&mut self, message: Vec<u8>) -> (step: SendStep)
        ensures
            starts(
                old(self).config(),
                held_to_limit(old(self).config(), message@),
                step@,
                (old(self).drops(), final(self).drops()),
                (old(self).fails(), final(self).fails()),
                (old(self).log(), final(self).log()),
            ),
            final(self).same_wiring(*old(self)),
    {
        let prepared = prepare(&self.config, message);
        send_message(
            &mut self.outlet,
            &self.config,
            &mut self.drop_next,
            &mut self.fail_next,
            prepared,
        )
    }

    /// Goes on with a send once its latency has passed.
    pub fn resume_send(&mut self, message: Vec<u8>) -> (step: SendStep)
        ensures
            delivers(
                old(self).config(),
                message@,
                step@,
                (old(self).drops(), final(self).drops()),
                (old(self).log(), final(self).log()),
            ),
            final(self).fails() == old(self).fails(),
            final(self).same_wiring(*old(self)),
    {
        deliver(&mut self.outlet, &self.config, &mut self.drop_next, message)
    }

    /// Borrows the two directions of this endpoint.
    pub fn split(&mut self) -> (halves: (MemSendHalf<'_>, MemRecvHalf<'_>))
        ensures
            halves.0.config() == old(self).config(),
            halves.0.sending_handle() == old(self).sending_handle(),
            halves.0.log() == old(self).log(),
            halves.0.drops() == old(self).drops(),
            halves.0.fails() == old(self).fails(),
            halves.1.receiving_handle() == old(self).receiving_handle(),
            final(self).config() == old(self).config(),
            final(self).sending_handle() == final(halves.0.outlet).handle(),
            final(self).log() == final(halves.0.outlet).log(),
            final(self).drops() == *final(halves.0.drop_next),
            final(self).fails() == *final(halves.0.fail_next),
            final(self).receiving_handle() == *final(halves.1.receiver),
    {
        (
            MemSendHalf {
                outlet: &mut self.outlet,
                config: &self.config,
                drop_next: &mut self.drop_next,
                fail_next: &mut self.fail_next,
            },
            MemRecvHalf { receiver: &mut self.receiver },
        )
    }
}

/// Borrowed sending direction of a [`MemChannel`].
pub struct MemSendHalf<'a> {
    pub outlet: &'a mut Outlet,
    pub config: &'a MemConfig,
    pub drop_next: &'a mut usize,
    pub fail_next: &'a mut usize,
}

/// Borrowed receiving direction of a [`MemChannel`].
#[derive(Debug)]
pub struct MemRecvHalf<'a> {
    pub receiver: &'a mut mpsc::Receiver<Vec<u8>>,
}

impl<'a> MemSendHalf<'a> {
    /// The configuration of the endpoint.
    pub open spec fn config(self) -> MemConfig {
        *self.config
    }

    /// How many losses are still to be injected.
    pub open spec fn drops(self) -> nat {
        *self.drop_next as nat
    }

    /// How many failures are still to be injected.
    pub open spec fn fails(self) -> nat {
        *self.fail_next as nat
    }

    /// The handle that this direction sends with.
    pub open spec fn sending_handle(self) -> mpsc::Sender<Vec<u8>> {
        self.outlet.handle()
    }

    /// What passed between this direction and the peer's queue, but for what was waited for.
    pub open spec fn log(self) -> Seq<Contact> {
        self.outlet.log()
    }

    /// Whether this direction has kept its queue and its configuration from
    /// `before`.
    pub open spec fn same_loan(self, before: Self) -> bool {
        &&& self.config() == before.config()
        &&& self.sending_handle() == before.sending_handle()
    }

    /// The handle to put messages into the peer's queue with.
    pub fn sender(&self) -> (sender: &mpsc::Sender<Vec<u8>>)
        ensures
            *sender == self.sending_handle(),
    {
        self.outlet.sender()
    }

    /// Starts a send.
    pub fn start_send(&mut self, message: Vec<u8>) -> (step: SendStep)
        ensures
            starts(
                old(self).config(),
                held_to_limit(old(self).config(), message@),
                step@,
                (old(self).drops(), final(self).drops()),
                (old(self).fails(), final(self).fails()),
                (old(self).log(), final(self).log()),
            ),
            final(self).same_loan(*old(self)),
            *final(final(self).outlet) == *final(old(self).outlet),
            *final(final(self).drop_next) == *final(old(self).drop_next),
            *final(final(self).fail_next) == *final(old(self).fail_next),
    {
        let prepared = prepare(self.config, message);
        send_message(self.outlet, self.config, self.drop_next, self.fail_next, prepared)
    }

    /// Goes on with a send once its latency has passed.
    pub fn resume_send(&mut self, message: Vec<u8>) -> (step: SendStep)
        ensures
            delivers(
                old(self).config(),
                message@,
                step@,
                (old(self).drops(), final(self).drops()),
                (old(self).log(), final(self).log()),
            ),
            final(self).fails() == old(self).fails(),
            final(self).same_loan(*old(self)),
            *final(final(self).outlet) == *final(old(self).outlet),
            *final(final(self).drop_next) == *final(old(self).drop_next),
            *final(final(self).fail_next) == *final(old(self).fail_next),
    {
        deliver(self.outlet, self.config, self.drop_next, message)
    }
}

impl<'a> MemRecvHalf<'a> {
    /// The handle that this direction receives with.
    pub open spec fn receiving_handle(self) -> mpsc::Receiver<Vec<u8>> {
        *self.receiver
    }

    /// The handle to take messages from the endpoint's queue with.
    pub fn receiver(&mut self) -> (receiver: &mut mpsc::Receiver<Vec<u8>>)
        ensures
            *receiver == old(self).receiving_handle(),
            final(self).receiving_handle() == *final(receiver),
            *final(final(self).receiver) == *final(old(self).receiver),
    {
        self.receiver
    }
}

/// Whether what one endpoint sends enters the queue that the other receives from, and the
/// other way round. The two queues have the capacity that the endpoints are configured with.
pub open spec fn connected(left: MemChannel, right: MemChannel) -> bool {
    &&& queue_of(
        left.config().queue_capacity(),
        left.sending_handle(),
        right.receiving_handle(),
    )
    &&& queue_of(
        right.config().queue_capacity(),
        right.sending_handle(),
        left.receiving_handle(),
    )
}

/// Create two connected in-memory channel endpoints.
pub fn duplex(config: MemConfig) -> (ends: (MemChannel, MemChannel))
    requires
        config.queue_capacity() <= MAX_CAPACITY,
    ensures
        connected(ends.0, ends.1),
        ends.0.config() == config,
        ends.1.config() == config,
        ends.0.log() == Seq::<Contact>::empty(),
        ends.1.log() == Seq::<Contact>::empty(),
        ends.0.drops() == 0,
        ends.1.drops() == 0,
        ends.0.fails() == 0,
        ends.1.fails() == 0,
{
    let requested: usize = config.capacity.unwrap_or(1);
    let capacity: usize = if requested == 0 {
        1
    } else {
        requested
    };
    let (left_outlet, right_receiver) = outlet(capacity);
    let (right_outlet, left_receiver) = outlet(capacity);
    (
        MemChannel {
            outlet: left_outlet,
            receiver: left_receiver,
            config,
            drop_next: 0,
            fail_next: 0,
        },
        MemChannel {
            outlet: right_outlet,
            receiver: right_receiver,
            config,
            drop_next: 0,
            fail_next: 0,
        },
    )
}

/// The outcome of a build, given the local endpoint and whether the remote one was handed to
/// the listener.
pub open spec fn connect_outcome(local: MemChannel, handed_over: bool) -> Result<
    MemChannel,
    BuildFailure,
> {
    if handed_over {
        Ok(local)
    } else {
        Err(BuildFailure::Unreachable)
    }
}

/// The outcome of an acceptance, given the channel that was handed over, or none where every
/// builder is gone.
pub open spec fn accept_outcome(received: Option<MemChannel>) -> Result<MemChannel, BuildFailure> {
    match received {
        Some(channel) => Ok(channel),
        None => Err(BuildFailure::Unreachable),
    }
}

/// How many built channels wait for the listener at most.
pub const BACKLOG: usize = 8;

/// Address of the sole endpoint exposed by an in-memory network.
#[derive(Debug, Clone, Copy, Default, PartialEq, Eq, Hash)]
pub struct MemAddr;

/// Channel builder side of an in-memory network.
#[derive(Debug)]
pub struct MemChannelBuilder {
    config: MemConfig,
    incoming: mpsc::Sender<MemChannel>,
}

/// Listener side of an in-memory network.
#[derive(Debug)]
pub struct MemListener {
    incoming: mpsc::Receiver<MemChannel>,
}

/// Create a paired channel builder and listener.
pub fn network(config: MemConfig) -> (ends: (MemChannelBuilder, MemListener))
    ensures
        queue_of(BACKLOG, ends.0.handle(), ends.1.handle()),
        ends.0.config() == config,
{
    let (sender, receiver) = mpsc::channel(BACKLOG);
    (MemChannelBuilder { config, incoming: sender }, MemListener { incoming: receiver })
}

impl Clone for MemChannelBuilder {
    fn clone(&self) -> (builder: Self)
        ensures
            cloned_from(self.handle(), builder.handle()),
            builder.config() == self.config(),
    {
        MemChannelBuilder { config: self.config, incoming: self.incoming.clone() }
    }
}

impl MemChannelBuilder {
    /// The configuration of the channels built.
    pub closed spec fn config(self) -> MemConfig {
        self.config
    }

    /// The handle that this builder hands channels over with.
    pub closed spec fn handle(self) -> mpsc::Sender<MemChannel> {
        self.incoming
    }

    /// The handle to hand a channel to the listener with.
    pub fn incoming(&self) -> (incoming: &mpsc::Sender<MemChannel>)
        ensures
            *incoming == self.handle(),
    {
        &self.incoming
    }

    /// Starts a build: the local endpoint of a new channel, and the remote one, which
    /// is to be handed to the listener.
    pub fn start_build(&self, _address: &MemAddr) -> (ends: (MemChannel, MemChannel))
        requires
            self.config().queue_capacity() <= MAX_CAPACITY,
        ensures
            connected(ends.0, ends.1),
            ends.0.config() == self.config(),
            ends.1.config() == self.config(),
            ends.0.log() == Seq::<Contact>::empty(),
            ends.1.log() == Seq::<Contact>::empty(),
            ends.0.drops() == 0,
            ends.1.drops() == 0,
            ends.0.fails() == 0,
            ends.1.fails() == 0,
    {
        duplex(self.config)
    }

    /// Finishes a build, given the local endpoint and whether the remote one was
    /// handed over. Without a listener the peer is unreachable.
    pub fn finish_build(local: MemChannel, handed_over: bool) -> (built: Result<
        MemChannel,
        BuildError,
    >)
        ensures
            build_outcome(built) == connect_outcome(local, handed_over),
    {
        if handed_over {
            Ok(local)
        } else {
            Err(BuildError::Unreachable)
        }
    }
}

impl MemListener {
    /// The handle that this listener takes channels with.
    pub closed spec fn handle(self) -> mpsc::Receiver<MemChannel> {
        self.incoming
    }

    /// The handle to take the next channel with.
    pub fn incoming(&mut self) -> (incoming: &mut mpsc::Receiver<MemChannel>)
        ensures
            *incoming == old(self).handle(),
            final(self).handle() == *final(incoming),
    {
        &mut self.incoming
    }

    /// Finishes an acceptance with what the queue of the network gave: a channel, or nothing where
    /// every builder is gone.
    pub fn finish_build(received: Option<MemChannel>) -> (built: Result<MemChannel, BuildError>)
        ensures
            build_outcome(built) == accept_outcome(received),
    {
        match received {
            Some(channel) => Ok(channel),
            None => Err(BuildError::Unreachable),
        }
    }
}

} // verus!
