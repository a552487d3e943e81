//! Reusable conformance checks for byte channel implementations.
//!
//! A check is a list of steps to take with fresh endpoints, supplied by an
//! implementation's own test suite. The check says what to do next and judges what was
//! observed; taking the steps is left to the caller. No check assumes FIFO delivery
//! because a channel does not promise ordering.

pub mod checks;
pub mod laws;

use vstd::prelude::*;
use vstd::slice::slice_to_vec;

use crate::error::{RecvError, SendError};

verus! {

use crate::error::{recv_outcome, send_outcome, RecvFailure, SendFailure};

/// One of the two endpoints of a channel.
#[derive(Debug, Clone, Copy, PartialEq, Eq, Structural)]
pub enum Side {
    Left,
    Right,
}

/// A step of a check, with what has to be observed for the check to go on.
#[derive(Debug)]
pub enum Step {
    /// Build both endpoints: the left one connects, the right one accepts.
    Build,
    /// Send a message, which has to be accepted.
    Send { side: Side, message: Vec<u8> },
    /// Send a message, which has to be refused as over exactly this limit.
    SendRefused { side: Side, message: Vec<u8>, max: usize },
    /// Receive a message and note it. Where `noted` is given, the messages noted up to
    /// then have to be these.
    Receive { side: Side, noted: Option<Vec<Vec<u8>>> },
    /// Receive, which has to report closure.
    ReceiveClosed { side: Side },
    /// Receive, which has to fail within the given time.
    ReceiveFails { side: Side, within_millis: u64 },
    /// Receive for the given time, which has to pass without an outcome, and abandon the
    /// attempt.
    StayPending { side: Side, millis: u64 },
    /// Drop an endpoint.
    Drop { side: Side },
}

/// What the caller of a check has to do.
#[derive(Debug)]
pub enum Action {
    /// Build both endpoints.
    Build,
    /// Send a message.
    Send { side: Side, message: Vec<u8> },
    /// Receive a message, for no longer than the given time where there is one.
    Receive { side: Side, within_millis: Option<u64> },
    /// Drop an endpoint.
    Drop { side: Side },
    /// Nothing: the check has passed.
    Passed,
    /// Nothing: the check has failed.
    Failed,
}

/// What the caller of a check observed.
#[derive(Debug)]
pub enum Event {
    /// Both endpoints were built, or one of them was not.
    Built(bool),
    /// A send was over.
    Sent(Result<(), SendError>),
    /// A receive was over.
    Received(Result<Vec<u8>, RecvError>),
    /// A receive was not over in time.
    Pending,
    /// An endpoint was dropped.
    Dropped,
}

/// The mathematical value of a [`Step`].
pub ghost enum StepView {
    Build,
    Send { side: Side, message: Seq<u8> },
    SendRefused { side: Side, message: Seq<u8>, max: nat },
    Receive { side: Side, noted: Option<Seq<Seq<u8>>> },
    ReceiveClosed { side: Side },
    ReceiveFails { side: Side, within_millis: nat },
    StayPending { side: Side, millis: nat },
    Drop { side: Side },
}

/// The mathematical value of an [`Action`].
pub ghost enum ActionView {
    Build,
    Send { side: Side, message: Seq<u8> },
    Receive { side: Side, within_millis: Option<nat> },
    Drop { side: Side },
    Passed,
    Failed,
}

/// The mathematical value of an [`Event`].
pub ghost enum EventView {
    Built(bool),
    Sent(Result<(), SendFailure>),
    Received(Result<Seq<u8>, RecvFailure>),
    Pending,
    Dropped,
}

/// A list of messages, as a mathematical value.
pub open spec fn messages_view(messages: Seq<Vec<u8>>) -> Seq<Seq<u8>> {
    Seq::new(messages.len(), |i: int| messages[i]@)
}

impl View for Step {
    type V = StepView;

    open spec fn view(&self) -> StepView {
        match self {
            Step::Build => StepView::Build,
            Step::Send { side, message } => StepView::Send { side: *side, message: message@ },
            Step::SendRefused { side, message, max } => StepView::SendRefused {
                side: *side,
                message: message@,
                max: *max as nat,
            },
            Step::Receive { side, noted } => StepView::Receive {
                side: *side,
                noted: match noted {
                    Some(noted) => Some(messages_view(noted@)),
                    None => None,
                },
            },
            Step::ReceiveClosed { side } => StepView::ReceiveClosed { side: *side },
            Step::ReceiveFails { side, within_millis } => StepView::ReceiveFails {
                side: *side,
                within_millis: *within_millis as nat,
            },
            Step::StayPending { side, millis } => StepView::StayPending {
                side: *side,
                millis: *millis as nat,
            },
            Step::Drop { side } => StepView::Drop { side: *side },
        }
    }
}

impl View for Action {
    type V = ActionView;

    open spec fn view(&self) -> ActionView {
        match self {
            Action::Build => ActionView::Build,
            Action::Send { side, message } => ActionView::Send { side: *side, message: message@ },
            Action::Receive { side, within_millis } => ActionView::Receive {
                side: *side,
                within_millis: match within_millis {
                    Some(millis) => Some(*millis as nat),
                    None => None,
                },
            },
            Action::Drop { side } => ActionView::Drop { side: *side },
            Action::Passed => ActionView::Passed,
            Action::Failed => ActionView::Failed,
        }
    }
}

impl View for Event {
    type V = EventView;

    open spec fn view(&self) -> EventView {
        match self {
            Event::Built(built) => EventView::Built(*built),
            Event::Sent(result) => EventView::Sent(send_outcome(*result)),
            Event::Received(result) => EventView::Received(recv_outcome(*result)),
            Event::Pending => EventView::Pending,
            Event::Dropped => EventView::Dropped,
        }
    }
}

/// What a step asks of the caller.
pub open spec fn asked(step: StepView) -> ActionView {
    match step {
        StepView::Build => ActionView::Build,
        StepView::Send { side, message } => ActionView::Send { side, message },
        StepView::SendRefused { side, message, .. } => ActionView::Send { side, message },
        StepView::Receive { side, .. } => ActionView::Receive { side, within_millis: None },
        StepView::ReceiveClosed { side } => ActionView::Receive { side, within_millis: None },
        StepView::ReceiveFails { side, within_millis } => ActionView::Receive {
            side,
            within_millis: Some(within_millis),
        },
        StepView::StayPending { side, millis } => ActionView::Receive {
            side,
            within_millis: Some(millis),
        },
        StepView::Drop { side } => ActionView::Drop { side },
    }
}

/// The messages noted after an event at a step.
pub open spec fn noted_after(
    noted: Seq<Seq<u8>>,
    step: StepView,
    event: EventView,
) -> Seq<Seq<u8>> {
    match (step, event) {
        (StepView::Receive { .. }, EventView::Received(Ok(message))) => noted.push(message),
        _ => noted,
    }
}

/// Whether an event is what a step has to see, given the messages noted before.
pub open spec fn meets(noted: Seq<Seq<u8>>, step: StepView, event: EventView) -> bool {
    match (step, event) {
        (StepView::Build, EventView::Built(built)) => built,
        (StepView::Send { .. }, EventView::Sent(outcome)) => outcome is Ok,
        (StepView::SendRefused { max, .. }, EventView::Sent(outcome)) => outcome == Err::<
            (),
            SendFailure,
        >(SendFailure::TooLarge { max }),
        (StepView::Receive { noted: wanted, .. }, EventView::Received(Ok(message))) => wanted
            matches Some(wanted) ==> noted.push(message) == wanted,
        (StepView::ReceiveClosed { .. }, EventView::Received(outcome)) => outcome == Err::<
            Seq<u8>,
            RecvFailure,
        >(RecvFailure::Closed),
        (StepView::ReceiveFails { .. }, EventView::Received(outcome)) => outcome is Err,
        (StepView::StayPending { .. }, EventView::Pending) => true,
        (StepView::Drop { .. }, EventView::Dropped) => true,
        _ => false,
    }
}

/// A check under way, as a mathematical value.
pub ghost struct CheckView {
    /// The steps of the check.
    pub steps: Seq<StepView>,
    /// How many steps were met.
    pub at: nat,
    /// The messages noted.
    pub noted: Seq<Seq<u8>>,
    /// Whether a step was not met.
    pub failed: bool,
}

impl CheckView {
    /// A check before its first step.
    pub open spec fn fresh(steps: Seq<StepView>) -> CheckView {
        CheckView { steps, at: 0, noted: Seq::empty(), failed: false }
    }

    /// What the check asks of the caller.
    pub open spec fn action(self) -> ActionView {
        if self.failed {
            ActionView::Failed
        } else if self.at >= self.steps.len() {
            ActionView::Passed
        } else {
            asked(self.steps[self.at as int])
        }
    }

    /// The check after an event. A check that is over stays as it is.
    pub open spec fn after(self, event: EventView) -> CheckView {
        if self.failed || self.at >= self.steps.len() {
            self
        } else {
            let step = self.steps[self.at as int];
            let noted = noted_after(self.noted, step, event);
            if meets(self.noted, step, event) {
                CheckView { at: self.at + 1, noted, ..self }
            } else {
                CheckView { failed: true, noted, ..self }
            }
        }
    }
}

/// A conformance check under way.
#[derive(Debug)]
pub struct Check {
    steps: Vec<Step>,
    at: usize,
    noted: Vec<Vec<u8>>,
    failed: bool,
}

impl View for Check {
    type V = CheckView;

    closed spec fn view(&self) -> CheckView {
        CheckView {
            steps: Seq::new(self.steps@.len(), |i: int| self.steps@[i]@),
            at: self.at as nat,
            noted: messages_view(self.noted@),
            failed: self.failed,
        }
    }
}

/// Copies a message.
fn copied(message: &Vec<u8>) -> (copy: Vec<u8>)
    ensures
        copy@ == message@,
{
    slice_to_vec(message.as_slice())
}

/// Whether two messages are the same.
fn same_message(left: &Vec<u8>, right: &Vec<u8>) -> (same: bool)
    ensures
        same == (left@ == right@),
{
    if left.len() != right.len() {
        return false;
    }
    for i in 0..left.len()
        invariant
            left@.len() == right@.len(),
            forall|j: int| 0 <= j < i ==> left@[j] == right@[j],
    {
        if left[i] != right[i] {
            return false;
        }
    }
    assert(left@ =~= right@);
    true
}

/// Whether two lists of messages are the same.
fn same_messages(left: &Vec<Vec<u8>>, right: &Vec<Vec<u8>>) -> (same: bool)
    ensures
        same == (messages_view(left@) == messages_view(right@)),
{
    if left.len() != right.len() {
        assert(messages_view(left@).len() != messages_view(right@).len());
        return false;
    }
    for i in 0..left.len()
        invariant
            left@.len() == right@.len(),
            forall|j: int| 0 <= j < i ==> left@[j]@ == right@[j]@,
    {
        if !same_message(&left[i], &right[i]) {
            assert(messages_view(left@)[i as int] != messages_view(right@)[i as int]);
            return false;
        }
    }
    assert(messages_view(left@) =~= messages_view(right@));
    true
}

impl Check {
    /// A check of the given steps, before the first.
    pub fn new(steps: Vec<Step>) -> (check: Check)
        ensures
            check@ == CheckView::fresh(Seq::new(steps@.len(), |i: int| steps@[i]@)),
    {
        let check = Check { steps, at: 0, noted: Vec::new(), failed: false };
        assert(messages_view(check.noted@) =~= Seq::<Seq<u8>>::empty());
        check
    }

    /// What to do next.
    pub fn next(&self) -> (action: Action)
        ensures
            action@ == self@.action(),
    {
        if self.failed {
            return Action::Failed;
        }
        if self.at >= self.steps.len() {
            return Action::Passed;
        }
        match &self.steps[self.at] {
            Step::Build => Action::Build,
            Step::Send { side, message } => Action::Send { side: *side, message: copied(message) },
            Step::SendRefused { side, message, max: _ } => Action::Send {
                side: *side,
                message: copied(message),
            },
            Step::Receive { side, noted: _ } => Action::Receive {
                side: *side,
                within_millis: None,
            },
            Step::ReceiveClosed { side } => Action::Receive { side: *side, within_millis: None },
            Step::ReceiveFails { side, within_millis } => Action::Receive {
                side: *side,
                within_millis: Some(*within_millis),
            },
            Step::StayPending { side, millis } => Action::Receive {
                side: *side,
                within_millis: Some(*millis),
            },
            Step::Drop { side } => Action::Drop { side: *side },
        }
    }

    /// Judges what was observed.
    pub fn observe(&mut self, event: Event)
        ensures
            final(self)@ == old(self)@.after(event@),
    {
        if self.failed || self.at >= self.steps.len() {
            return;
        }
        let ghost before = self@;
        let met: bool = match (&self.steps[self.at], event) {
            (Step::Build, Event::Built(built)) => built,
            (Step::Send { .. }, Event::Sent(result)) => result.is_ok(),
            (Step::SendRefused { max, .. }, Event::Sent(result)) => match result {
                Err(SendError::TooLarge { max: actual }) => actual == *max,
                _ => false,
            },
            (Step::Receive { noted, .. }, Event::Received(Ok(message))) => {
                self.noted.push(message);
                assert(messages_view(self.noted@) =~= before.noted.push(message@));
                match noted {
                    Some(noted) => same_messages(&self.noted, noted),
                    None => true,
                }
            },
            (Step::ReceiveClosed { .. }, Event::Received(result)) => match result {
                Err(RecvError::Closed) => true,
                _ => false,
            },
            (Step::ReceiveFails { .. }, Event::Received(result)) => result.is_err(),
            (Step::StayPending { .. }, Event::Pending) => true,
            (Step::Drop { .. }, Event::Dropped) => true,
            _ => false,
        };
        if met {
            self.at = self.at + 1;
        } else {
            self.failed = true;
        }
    }
}

} // verus!
