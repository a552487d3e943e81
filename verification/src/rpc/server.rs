//! The serving side of an RPC stream.
//!
//! A served backend is driven in both directions at once. The sending direction takes
//! one queued message at a time to the backend; the receiving direction takes one
//! received message at a time to the queue of the callers. Whichever direction ends
//! first ends both, so an operation that was interrupted is never resumed.

use tokio::sync::{mpsc, oneshot};
use vstd::prelude::*;

use crate::error::{BuildError, RecvError, SendError};
use crate::rpc::client::{SendAnswer, SendResponse};
use crate::rpc::wire::{
    encode_build_result, encode_recv_result, encode_send_result, BuildReply, RecvReply, SendReply,
};

verus! {

use crate::error::{recv_outcome, send_outcome, RecvFailure, SendFailure};
use crate::queue::{queue_of, slot_of};
use crate::rpc::wire::{build_report, recv_report, send_report, RecvReplyView};

/// A message on its way to the backend, with the slot that the outcome of its send comes back
/// in.
pub type QueuedSend = (Vec<u8>, SendAnswer);

/// The side of a served channel that answers requests.
#[derive(Debug)]
pub struct RequestPorts {
    /// Where messages go to the backend.
    pub sends: mpsc::Sender<QueuedSend>,
    /// Where the outcomes of receives come from the backend.
    pub receives: mpsc::Receiver<Result<Vec<u8>, RecvError>>,
}

/// The side of a served channel that drives the backend.
#[derive(Debug)]
pub struct BackendPorts {
    /// Where messages for the backend come from.
    pub sends: mpsc::Receiver<QueuedSend>,
    /// Where the outcomes of the backend's receives go.
    pub receives: mpsc::Sender<Result<Vec<u8>, RecvError>>,
}

/// Makes the queues between the two sides of a served channel. Each holds one item, so that the
/// backend is asked no faster than it answers.
pub fn serve_channel() -> (ports: (RequestPorts, BackendPorts))
    ensures
        queue_of(1, ports.0.sends, ports.1.sends),
        queue_of(1, ports.1.receives, ports.0.receives),
{
    let (sends, queued) = mpsc::channel(1);
    let (received, receives) = mpsc::channel(1);
    (RequestPorts { sends, receives }, BackendPorts { sends: queued, receives: received })
}

/// Makes a message ready to be queued for the backend, and the end that the outcome of its
/// send arrives at.
pub fn queue_send(message: Vec<u8>) -> (queued: (QueuedSend, SendResponse))
    ensures
        (queued.0).0 == message,
        slot_of((queued.0).1, queued.1),
{
    let (answer, response) = oneshot::channel();
    ((message, answer), response)
}

/// Whether a backend must not be used any more after a send: it may be after success,
/// and after a message that was too large.
pub open spec fn send_ends(outcome: Result<(), SendFailure>) -> bool {
    match outcome {
        Ok(()) => false,
        Err(SendFailure::TooLarge { .. }) => false,
        Err(_) => true,
    }
}

/// Whether a backend must not be used any more after a send.
pub fn send_is_terminal(result: &Result<(), SendError>) -> (terminal: bool)
    ensures
        terminal == send_ends(send_outcome(*result)),
{
    match result {
        Ok(()) => false,
        Err(SendError::TooLarge { .. }) => false,
        Err(_) => true,
    }
}

/// Whether a backend must not be used any more after a receive: any failure ends it.
pub fn recv_is_terminal(result: &Result<Vec<u8>, RecvError>) -> (terminal: bool)
    ensures
        terminal == (recv_outcome(*result) is Err),
{
    result.is_err()
}

/// The sending direction of a served backend.
#[derive(Debug, Clone, Copy, PartialEq, Eq, Structural)]
pub enum Outbound {
    /// Waiting for a message to send.
    Idle,
    /// A message is with the backend.
    Sending,
    /// Over.
    Ended,
}

/// The receiving direction of a served backend.
#[derive(Debug, Clone, Copy, PartialEq, Eq, Structural)]
pub enum Inbound {
    /// Waiting for the backend to receive.
    Receiving,
    /// An outcome is on its way to the callers. `last` tells whether it is the last.
    Handing { last: bool },
    /// Over.
    Ended,
}

impl Outbound {
    /// What follows the arrival of a queued message, or of the news that there will be
    /// none.
    pub open spec fn after_queue(self, queued: bool) -> Outbound {
        if queued {
            Outbound::Sending
        } else {
            Outbound::Ended
        }
    }

    /// What follows the outcome of a send.
    pub open spec fn after_send(self, outcome: Result<(), SendFailure>) -> Outbound {
        if send_ends(outcome) {
            Outbound::Ended
        } else {
            Outbound::Idle
        }
    }

    /// Takes note of the next queued message, if there is one; there is none where every
    /// caller is gone.
    pub fn queued(&mut self, next: bool)
        requires
            *old(self) == Outbound::Idle,
        ensures
            *final(self) == old(self).after_queue(next),
    {
        *self = if next {
            Outbound::Sending
        } else {
            Outbound::Ended
        };
    }

    /// Takes note of the outcome of a send.
    pub fn sent(&mut self, result: &Result<(), SendError>)
        requires
            *old(self) == Outbound::Sending,
        ensures
            *final(self) == old(self).after_send(send_outcome(*result)),
    {
        *self = if send_is_terminal(result) {
            Outbound::Ended
        } else {
            Outbound::Idle
        };
    }
}

impl Inbound {
    /// What follows the outcome of a receive.
    pub open spec fn after_receive(self, outcome: Result<Seq<u8>, RecvFailure>) -> Inbound {
        Inbound::Handing { last: outcome is Err }
    }

    /// What follows the handing over of an outcome, which the callers may be gone for.
    pub open spec fn after_hand_over(self, taken: bool) -> Inbound {
        if !taken || self->last {
            Inbound::Ended
        } else {
            Inbound::Receiving
        }
    }

    /// Takes note of the outcome of a receive.
    pub fn received(&mut self, result: &Result<Vec<u8>, RecvError>)
        requires
            *old(self) == Inbound::Receiving,
        ensures
            *final(self) == old(self).after_receive(recv_outcome(*result)),
    {
        *self = Inbound::Handing { last: recv_is_terminal(result) };
    }

    /// Takes note of whether the callers took the outcome.
    pub fn handed_over(&mut self, taken: bool)
        requires
            *old(self) is Handing,
        ensures
            *final(self) == old(self).after_hand_over(taken),
    {
        let last: bool = match *self {
            Inbound::Handing { last } => last,
            _ => true,
        };
        *self = if !taken || last {
            Inbound::Ended
        } else {
            Inbound::Receiving
        };
    }
}

/// What happens to a served backend.
pub ghost enum PumpEvent {
    /// A message was queued, or the news came that there will be none.
    Queued(bool),
    /// The backend finished a send.
    Sent(Result<(), SendFailure>),
    /// The backend finished a receive.
    Received(Result<Seq<u8>, RecvFailure>),
    /// An outcome of the backend was taken by the callers, or they were gone.
    HandedOver(bool),
}

/// What drives a served backend: both of its directions. Whichever ends first ends both.
#[derive(Debug, Clone, Copy, PartialEq, Eq, Structural)]
pub struct Pump {
    /// The sending direction.
    pub outbound: Outbound,
    /// The receiving direction.
    pub inbound: Inbound,
}

impl Pump {
    /// A pump before anything has happened.
    pub open spec fn fresh() -> Pump {
        Pump { outbound: Outbound::Idle, inbound: Inbound::Receiving }
    }

    /// Whether the backend is given up, which it is as soon as one direction is over.
    pub open spec fn ended(self) -> bool {
        self.outbound == Outbound::Ended || self.inbound == Inbound::Ended
    }

    /// The pump after an event, or `None` where the event cannot happen: nothing happens to a
    /// backend that is given up, and a direction goes through its states in turn.
    pub open spec fn after(self, event: PumpEvent) -> Option<Pump> {
        if self.ended() {
            None
        } else {
            match event {
                PumpEvent::Queued(next) => if self.outbound == Outbound::Idle {
                    Some(Pump { outbound: self.outbound.after_queue(next), ..self })
                } else {
                    None
                },
                PumpEvent::Sent(outcome) => if self.outbound == Outbound::Sending {
                    Some(Pump { outbound: self.outbound.after_send(outcome), ..self })
                } else {
                    None
                },
                PumpEvent::Received(outcome) => if self.inbound == Inbound::Receiving {
                    Some(Pump { inbound: self.inbound.after_receive(outcome), ..self })
                } else {
                    None
                },
                PumpEvent::HandedOver(taken) => if self.inbound is Handing {
                    Some(Pump { inbound: self.inbound.after_hand_over(taken), ..self })
                } else {
                    None
                },
            }
        }
    }

    /// Makes the pump of a backend that is served from now on.
    pub fn new() -> (pump: Pump)
        ensures
            pump == Pump::fresh(),
    {
        Pump { outbound: Outbound::Idle, inbound: Inbound::Receiving }
    }

    /// Whether the backend is to be given up: one of its directions is over.
    pub fn over(&self) -> (over: bool)
        ensures
            over == (self.outbound == Outbound::Ended || self.inbound == Inbound::Ended),
    {
        let sending_over: bool = match self.outbound {
            Outbound::Ended => true,
            _ => false,
        };
        let receiving_over: bool = match self.inbound {
            Inbound::Ended => true,
            _ => false,
        };
        sending_over || receiving_over
    }

    /// Takes note of the next queued message, if there is one; there is none where every
    /// caller is gone.
    pub fn queued(&mut self, next: bool)
        requires
            old(self).after(PumpEvent::Queued(next)) is Some,
        ensures
            Some(*final(self)) == old(self).after(PumpEvent::Queued(next)),
    {
        self.outbound.queued(next);
    }

    /// Takes note of the outcome of a send.
    pub fn sent(&mut self, result: &Result<(), SendError>)
        requires
            old(self).after(PumpEvent::Sent(send_outcome(*result))) is Some,
        ensures
            Some(*final(self)) == old(self).after(PumpEvent::Sent(send_outcome(*result))),
    {
        self.outbound.sent(result);
    }

    /// Takes note of the outcome of a receive.
    pub fn received(&mut self, result: &Result<Vec<u8>, RecvError>)
        requires
            old(self).after(PumpEvent::Received(recv_outcome(*result))) is Some,
        ensures
            Some(*final(self)) == old(self).after(PumpEvent::Received(recv_outcome(*result))),
    {
        self.inbound.received(result);
    }

    /// Takes note of whether the callers took the outcome.
    pub fn handed_over(&mut self, taken: bool)
        requires
            old(self).after(PumpEvent::HandedOver(taken)) is Some,
        ensures
            Some(*final(self)) == old(self).after(PumpEvent::HandedOver(taken)),
    {
        self.inbound.handed_over(taken);
    }
}

/// Answers a request to send. There is no outcome where the message could not be
/// queued, or where the backend was given up before it came to the message; the channel
/// is closed then.
pub fn answer_send(outcome: Option<Result<(), SendError>>) -> (reply: SendReply)
    ensures
        reply@ == match outcome {
            Some(result) => send_report(send_outcome(result)),
            None => send_report(Err(SendFailure::Closed)),
        },
{
    match outcome {
        Some(result) => encode_send_result(result),
        None => encode_send_result(Err(SendError::Closed)),
    }
}

/// The answer to a request to receive, given the outcome that the backend's side handed over,
/// or none where the backend was given up; the channel is closed then.
pub open spec fn recv_answered(outcome: Option<Result<Seq<u8>, RecvFailure>>) -> RecvReplyView {
    match outcome {
        Some(outcome) => recv_report(outcome),
        None => recv_report(Err(RecvFailure::Closed)),
    }
}

/// Answers a request to receive. There is no outcome where the backend was given up;
/// the channel is closed then.
pub fn answer_recv(outcome: Option<Result<Vec<u8>, RecvError>>) -> (reply: RecvReply)
    ensures
        reply@ == recv_answered(
            match outcome {
                Some(result) => Some(recv_outcome(result)),
                None => None,
            },
        ),
{
    match outcome {
        Some(result) => encode_recv_result(result),
        None => encode_recv_result(Err(RecvError::Closed)),
    }
}

/// What the server of a builder does with a request.
#[derive(Debug)]
pub enum BuildStep<I, C> {
    /// Ask the backend for a channel from this input.
    Call(I),
    /// Answer the request.
    Answer(BuildReply<C>),
}

/// Decides what the server of a builder does with a request, given what its token was decoded
/// to: a token that was refused never reaches the backend, and is answered with the
/// refusal.
pub fn build_requested<I, C>(decoded: Result<I, BuildError>) -> (step: BuildStep<I, C>)
    ensures
        match decoded {
            Ok(input) => step == BuildStep::<I, C>::Call(input),
            Err(error) => step matches BuildStep::Answer(reply) && reply@ == build_report::<C>(
                Err(error@),
            ),
        },
{
    match decoded {
        Ok(input) => BuildStep::Call(input),
        Err(error) => BuildStep::Answer(encode_build_result(Err(error))),
    }
}

} // verus!
