//! The queues that carry messages, commands and replies between tasks.
//!
//! The queues are Tokio's. A handle tells nothing of its queue, so contracts speak of the
//! call that can give it: two handles are the ends of one queue where `channel` can return
//! both together. A queue of messages is offered one without waiting only through its
//! [`Outlet`], which keeps a log of that.

use tokio::sync::oneshot::error::RecvError as ReplyLost;
use tokio::sync::{mpsc, oneshot};
use vstd::prelude::*;

verus! {

/// The sending end of a bounded queue.
#[verifier::external_type_specification]
#[verifier::external_body]
#[verifier::reject_recursive_types(T)]
pub struct ExQueueSender<T>(mpsc::Sender<T>);

/// The receiving end of a bounded queue.
#[verifier::external_type_specification]
#[verifier::external_body]
#[verifier::reject_recursive_types(T)]
pub struct ExQueueReceiver<T>(mpsc::Receiver<T>);

/// Why a queue did not take a value without waiting. The value comes back.
#[verifier::external_type_specification]
pub struct ExTrySendError<T>(mpsc::error::TrySendError<T>);

/// The answering end of a reply slot.
#[verifier::external_type_specification]
#[verifier::external_body]
#[verifier::reject_recursive_types(T)]
pub struct ExReplySender<T>(oneshot::Sender<T>);

/// The asking end of a reply slot.
#[verifier::external_type_specification]
#[verifier::external_body]
#[verifier::reject_recursive_types(T)]
pub struct ExReplyReceiver<T>(oneshot::Receiver<T>);

/// What the asking end of a reply slot meets when the answering end is gone. Verus does not
/// take the asking end without it: waiting for that end can give this error.
#[verifier::external_type_specification]
#[verifier::external_body]
pub struct ExReplyLost(ReplyLost);

/// The largest capacity that a queue can have.
pub const MAX_CAPACITY: usize = usize::MAX / 8;

/// `tokio::sync::mpsc::channel` makes a queue that holds at most `buffer` values, and gives its
/// two ends. It panics on a capacity of zero or above [`MAX_CAPACITY`]. That two handles
/// are the ends of one queue shows in nothing that they hold; [`queue_of`] speaks of it. That
/// two calls make different queues is not stated: it does not show in the result of one.
pub assume_specification<T>[ mpsc::channel::<T> ](buffer: usize) -> (ends: (
    mpsc::Sender<T>,
    mpsc::Receiver<T>,
))
    requires
        0 < buffer <= MAX_CAPACITY,
;

/// `tokio::sync::oneshot::channel` makes a slot for one value, and gives its two ends.
/// [`slot_of`] speaks of two handles that are the ends of one slot.
pub assume_specification<T>[ oneshot::channel::<T> ]() -> (ends: (
    oneshot::Sender<T>,
    oneshot::Receiver<T>,
));

/// `clone` of `tokio::sync::mpsc::Sender` makes another sending end of the same queue;
/// [`cloned_from`] speaks of two such handles.
pub assume_specification<T>[ <mpsc::Sender<T> as Clone>::clone ](
    sender: &mpsc::Sender<T>,
) -> mpsc::Sender<T>;

/// Whether the two handles can be the ends of one queue that holds at most `capacity` values:
/// `channel` with that capacity can give both together.
pub open spec fn queue_of<T>(
    capacity: usize,
    sender: mpsc::Sender<T>,
    receiver: mpsc::Receiver<T>,
) -> bool {
    call_ensures(mpsc::channel::<T>, (capacity,), (sender, receiver))
}

/// Whether the two handles can be the ends of one reply slot: `channel` can give both
/// together.
pub open spec fn slot_of<T>(answer: oneshot::Sender<T>, response: oneshot::Receiver<T>) -> bool {
    call_ensures(oneshot::channel::<T>, (), (answer, response))
}

/// Whether `other` can be another sending end of the queue of `sender`: `clone` of `sender` can
/// give it.
pub open spec fn cloned_from<T>(sender: mpsc::Sender<T>, other: mpsc::Sender<T>) -> bool {
    call_ensures(<mpsc::Sender<T> as Clone>::clone, (&sender,), other)
}

/// What a queue did with a message that it was asked to take without waiting.
pub type Attempt = Result<(), mpsc::error::TrySendError<Vec<u8>>>;

/// What becomes of a message that a queue was asked to take without waiting.
pub ghost enum AttemptView {
    Entered,
    Full,
    Closed,
}

/// The mathematical value of an [`Attempt`].
pub open spec fn attempt_view(attempt: Attempt) -> AttemptView {
    match attempt {
        Ok(()) => AttemptView::Entered,
        Err(mpsc::error::TrySendError::Full(_)) => AttemptView::Full,
        Err(mpsc::error::TrySendError::Closed(_)) => AttemptView::Closed,
    }
}

/// What passed between the holder of an [`Outlet`] and its queue.
pub ghost enum Contact {
    /// The queue was asked whether it is closed, and answered.
    Asked(bool),
    /// The queue was offered a message, and this became of it.
    Offered(Seq<u8>, AttemptView),
}

/// The messages that were offered, in order.
pub open spec fn offers(log: Seq<Contact>) -> Seq<Seq<u8>>
    decreases log.len(),
{
    if log.len() == 0 {
        Seq::empty()
    } else {
        let earlier = offers(log.drop_last());
        match log.last() {
            Contact::Offered(message, _) => earlier.push(message),
            Contact::Asked(_) => earlier,
        }
    }
}

/// The messages that were offered and entered, in order.
pub open spec fn entries(log: Seq<Contact>) -> Seq<Seq<u8>>
    decreases log.len(),
{
    if log.len() == 0 {
        Seq::empty()
    } else {
        let earlier = entries(log.drop_last());
        match log.last() {
            Contact::Offered(message, AttemptView::Entered) => earlier.push(message),
            _ => earlier,
        }
    }
}

/// The sending end of a queue of messages, with a log of what was asked of the queue and what
/// it was offered. There is no other way to offer a message without waiting, and no
/// second outlet of the same queue.
pub struct Outlet {
    sender: mpsc::Sender<Vec<u8>>,
    log: Ghost<Seq<Contact>>,
}

impl Outlet {
    /// The handle of this end.
    pub closed spec fn handle(self) -> mpsc::Sender<Vec<u8>> {
        self.sender
    }

    /// What passed between the holder of this end and the queue, in order.
    pub closed spec fn log(self) -> Seq<Contact> {
        self.log@
    }

    /// Borrows the handle of this end, to wait with it.
    pub fn sender(&self) -> (sender: &mpsc::Sender<Vec<u8>>)
        ensures
            *sender == self.handle(),
    {
        &self.sender
    }

    /// Asks whether the queue is closed, with `tokio::sync::mpsc::Sender::is_closed`.
    ///
    /// The log grows by the question and its answer, and the handle stays. Whether the
    /// receiving end is gone rests on what that end has done by then, and is left open.
    #[verifier::external_body]
    pub(crate) fn is_closed(&mut self) -> (closed: bool)
        ensures
            final(self).log() == old(self).log().push(Contact::Asked(closed)),
            final(self).handle() == old(self).handle(),
    {
        self.sender.is_closed()
    }

    /// Offers a message to the queue, with `tokio::sync::mpsc::Sender::try_send`.
    ///
    /// The log grows by the message and what became of it, and the handle stays. A message that
    /// the queue does not take comes back unchanged. Whether the queue takes it rests on
    /// what the other end has done by then, and is left open.
    #[verifier::external_body]
    pub(crate) fn offer(&mut self, message: Vec<u8>) -> (sent: Attempt)
        ensures
            final(self).log() == old(self).log().push(
                Contact::Offered(message@, attempt_view(sent)),
            ),
            final(self).handle() == old(self).handle(),
            match sent {
                Ok(()) => true,
                Err(mpsc::error::TrySendError::Full(returned)) => returned == message,
                Err(mpsc::error::TrySendError::Closed(returned)) => returned == message,
            },
    {
        self.sender.try_send(message)
    }
}

/// Makes a queue of messages: its outlet, of which nothing was asked yet, and its receiving
/// end.
pub fn outlet(capacity: usize) -> (ends: (Outlet, mpsc::Receiver<Vec<u8>>))
    requires
        0 < capacity <= MAX_CAPACITY,
    ensures
        queue_of(capacity, ends.0.handle(), ends.1),
        ends.0.log() == Seq::<Contact>::empty(),
{
    let (sender, receiver) = mpsc::channel(capacity);
    (Outlet { sender, log: Ghost(Seq::empty()) }, receiver)
}

} // verus!
