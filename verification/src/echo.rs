//! A minimal backend that gives back what is sent to it, used to exercise subprocess
//! transport.

use tokio::sync::mpsc;
use vstd::prelude::*;

use crate::error::{BuildError, RecvError, SendError};
use crate::mem::finish_recv;

verus! {

use crate::error::{recv_outcome, send_outcome, SendFailure};
use crate::mem::receive_outcome;
use crate::queue::queue_of;

/// A channel whose two directions are the two ends of one queue.
#[derive(Debug)]
pub struct Echo {
    sender: mpsc::Sender<Vec<u8>>,
    receiver: mpsc::Receiver<Vec<u8>>,
}

/// Borrowed sending direction of an [`Echo`].
#[derive(Debug)]
pub struct EchoSender<'a> {
    pub sender: &'a mpsc::Sender<Vec<u8>>,
}

/// Borrowed receiving direction of an [`Echo`].
#[derive(Debug)]
pub struct EchoReceiver<'a> {
    pub receiver: &'a mut mpsc::Receiver<Vec<u8>>,
}

/// Builds echoing channels, whatever the token.
#[derive(Debug)]
pub struct EchoBuilder;

impl EchoBuilder {
    /// Builds a channel that gives back what is sent to it, one message at a time.
    pub fn build(&mut self, _token: &Vec<u8>) -> (built: Result<Echo, BuildError>)
        ensures
            built matches Ok(echo) && queue_of(
                1,
                echo.sending_handle(),
                echo.receiving_handle(),
            ),
    {
        let (sender, receiver) = mpsc::channel(1);
        Ok(Echo { sender, receiver })
    }
}

impl Echo {
    /// The handle that this channel sends with.
    pub closed spec fn sending_handle(self) -> mpsc::Sender<Vec<u8>> {
        self.sender
    }

    /// The handle that this channel receives with.
    pub closed spec fn receiving_handle(self) -> mpsc::Receiver<Vec<u8>> {
        self.receiver
    }

    /// Borrows the two directions of this channel.
    pub fn split(&mut self) -> (halves: (EchoSender<'_>, EchoReceiver<'_>))
        ensures
            *halves.0.sender == old(self).sending_handle(),
            *halves.1.receiver == old(self).receiving_handle(),
            final(self).sending_handle() == old(self).sending_handle(),
            final(self).receiving_handle() == *final(halves.1.receiver),
    {
        (EchoSender { sender: &self.sender }, EchoReceiver { receiver: &mut self.receiver })
    }
}

/// Finishes a send, given whether the queue took the message. It does not where the receiving
/// end is closed.
pub fn echo_sent(taken: bool) -> (result: Result<(), SendError>)
    ensures
        send_outcome(result) == if taken {
            Ok::<(), SendFailure>(())
        } else {
            Err(SendFailure::Closed)
        },
{
    if taken {
        Ok(())
    } else {
        Err(SendError::Closed)
    }
}

/// Finishes a receive with what the queue gave.
pub fn echo_received(received: Option<Vec<u8>>) -> (result: Result<Vec<u8>, RecvError>)
    ensures
        recv_outcome(result) == receive_outcome(
            match received {
                Some(message) => Some(message@),
                None => None,
            },
        ),
{
    finish_recv(received)
}

} // verus!
