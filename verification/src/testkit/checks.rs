//! The checks themselves.

use vstd::prelude::*;
use vstd::slice::slice_to_vec;
use vstd::utf8::*;

use super::{Check, Side, Step};
use crate::error::{RecvError, SendError};

verus! {

use super::{messages_view, CheckView, StepView};
use crate::error::{recv_outcome, send_outcome};

/// The bytes of a text.
pub open spec fn bytes(text: &str) -> Seq<u8> {
    encode_utf8(text@)
}

/// The bytes of a text.
fn bytes_of(text: &str) -> (message: Vec<u8>)
    ensures
        message@ == bytes(text),
{
    slice_to_vec(text.as_bytes())
}

/// A list of one message.
fn list_of_one(first: Vec<u8>) -> (list: Vec<Vec<u8>>)
    ensures
        messages_view(list@) == seq![first@],
{
    let list: Vec<Vec<u8>> = vec![first];
    assert(messages_view(list@) =~= seq![first@]);
    list
}

/// A list of two messages.
fn list_of_two(first: Vec<u8>, second: Vec<u8>) -> (list: Vec<Vec<u8>>)
    ensures
        messages_view(list@) == seq![first@, second@],
{
    let list: Vec<Vec<u8>> = vec![first, second];
    assert(messages_view(list@) =~= seq![first@, second@]);
    list
}

/// A list of three messages.
fn list_of_three(first: Vec<u8>, second: Vec<u8>, third: Vec<u8>) -> (list: Vec<Vec<u8>>)
    ensures
        messages_view(list@) == seq![first@, second@, third@],
{
    let list: Vec<Vec<u8>> = vec![first, second, third];
    assert(messages_view(list@) =~= seq![first@, second@, third@]);
    list
}

/// The steps of [`roundtrip_both_directions`].
pub open spec fn roundtrip_steps() -> Seq<StepView> {
    seq![
        StepView::Send { side: Side::Left, message: bytes("first") },
        StepView::Receive { side: Side::Right, noted: None },
        StepView::Send { side: Side::Left, message: bytes("second") },
        StepView::Receive {
            side: Side::Right,
            noted: Some(seq![bytes("first"), bytes("second")]),
        },
        StepView::Send { side: Side::Right, message: bytes("reply") },
        StepView::Receive {
            side: Side::Left,
            noted: Some(seq![bytes("first"), bytes("second"), bytes("reply")]),
        },
    ]
}

/// Verify intact delivery in both directions without assuming ordering.
pub fn roundtrip_both_directions() -> (check: Check)
    ensures
        check@ == CheckView::fresh(roundtrip_steps()),
{
    let steps: Vec<Step> = vec![
        Step::Send { side: Side::Left, message: bytes_of("first") },
        Step::Receive { side: Side::Right, noted: None },
        Step::Send { side: Side::Left, message: bytes_of("second") },
        Step::Receive {
            side: Side::Right,
            noted: Some(list_of_two(bytes_of("first"), bytes_of("second"))),
        },
        Step::Send { side: Side::Right, message: bytes_of("reply") },
        Step::Receive {
            side: Side::Left,
            noted: Some(list_of_three(bytes_of("first"), bytes_of("second"), bytes_of("reply"))),
        },
    ];
    assert(Seq::new(steps@.len(), |i: int| steps@[i]@) =~= roundtrip_steps());
    Check::new(steps)
}

/// The steps of [`closed_after_peer_drop`].
pub open spec fn closed_steps() -> Seq<StepView> {
    seq![StepView::Drop { side: Side::Left }, StepView::ReceiveClosed { side: Side::Right }]
}

/// Verify that dropping one endpoint closes the other endpoint's receiver.
///
/// Use only for backends that detect peer closure.
pub fn closed_after_peer_drop() -> (check: Check)
    ensures
        check@ == CheckView::fresh(closed_steps()),
{
    let steps: Vec<Step> = vec![
        Step::Drop { side: Side::Left },
        Step::ReceiveClosed { side: Side::Right },
    ];
    assert(Seq::new(steps@.len(), |i: int| steps@[i]@) =~= closed_steps());
    Check::new(steps)
}

/// The steps of [`recv_is_cancel_safe`].
pub open spec fn cancel_safe_steps() -> Seq<StepView> {
    Seq::new(10, |i: int| StepView::StayPending { side: Side::Right, millis: 5 }) + seq![
        StepView::Send { side: Side::Left, message: bytes("message") },
        StepView::Receive { side: Side::Right, noted: Some(seq![bytes("message")]) },
    ]
}

/// Verify that repeatedly abandoning a receive does not consume a message.
pub fn recv_is_cancel_safe() -> (check: Check)
    ensures
        check@ == CheckView::fresh(cancel_safe_steps()),
{
    let mut steps: Vec<Step> = Vec::new();
    for i in 0..10
        invariant
            steps@.len() == i,
            forall|j: int|
                0 <= j < i ==> (#[trigger] steps@[j])@ == (StepView::StayPending {
                    side: Side::Right,
                    millis: 5,
                }),
    {
        steps.push(Step::StayPending { side: Side::Right, millis: 5 });
    }
    steps.push(Step::Send { side: Side::Left, message: bytes_of("message") });
    steps.push(
        Step::Receive { side: Side::Right, noted: Some(list_of_one(bytes_of("message"))) },
    );
    assert(Seq::new(steps@.len(), |i: int| steps@[i]@) =~= cancel_safe_steps());
    Check::new(steps)
}

/// A message of the given length, every byte the same.
pub open spec fn filled(byte: u8, len: nat) -> Seq<u8> {
    Seq::new(len, |i: int| byte)
}

/// A message of the given length, every byte the same.
fn filled_with(byte: u8, len: usize) -> (message: Vec<u8>)
    requires
        len <= isize::MAX,
    ensures
        message@ == filled(byte, len as nat),
{
    let message: Vec<u8> = vec![byte; len];
    assert(message@ =~= filled(byte, len as nat));
    message
}

/// The steps of [`too_large`].
pub open spec fn too_large_steps(max: nat) -> Seq<StepView> {
    seq![StepView::SendRefused { side: Side::Left, message: filled(0, max + 1), max }]
}

/// Verify that a payload beyond the declared limit is rejected exactly.
pub fn too_large(max: usize) -> (check: Check)
    requires
        max < isize::MAX,
    ensures
        check@ == CheckView::fresh(too_large_steps(max as nat)),
{
    let steps: Vec<Step> = vec![
        Step::SendRefused { side: Side::Left, message: filled_with(0, max + 1), max },
    ];
    assert(Seq::new(steps@.len(), |i: int| steps@[i]@) =~= too_large_steps(max as nat));
    Check::new(steps)
}

/// How long the message is that is sent after a refusal.
pub open spec fn recovery_len(max: nat) -> nat {
    if max < 5 {
        max
    } else {
        5
    }
}

/// The steps of [`too_large_is_recoverable`].
pub open spec fn recoverable_steps(max: nat) -> Seq<StepView> {
    seq![
        StepView::SendRefused { side: Side::Left, message: filled(0, max + 1), max },
        StepView::Send { side: Side::Left, message: filled(0x42, recovery_len(max)) },
        StepView::Receive {
            side: Side::Right,
            noted: Some(seq![filled(0x42, recovery_len(max))]),
        },
    ]
}

/// Verify that an oversized rejection leaves the channel usable.
pub fn too_large_is_recoverable(max: usize) -> (check: Check)
    requires
        max < isize::MAX,
    ensures
        check@ == CheckView::fresh(recoverable_steps(max as nat)),
{
    let len: usize = if max < 5 {
        max
    } else {
        5
    };
    let steps: Vec<Step> = vec![
        Step::SendRefused { side: Side::Left, message: filled_with(0, max + 1), max },
        Step::Send { side: Side::Left, message: filled_with(0x42, len) },
        Step::Receive { side: Side::Right, noted: Some(list_of_one(filled_with(0x42, len))) },
    ];
    assert(Seq::new(steps@.len(), |i: int| steps@[i]@) =~= recoverable_steps(max as nat));
    Check::new(steps)
}

/// The steps of [`build_use_drop_rebuild`].
pub open spec fn rebuild_steps() -> Seq<StepView> {
    seq![
        StepView::Build,
        StepView::Send { side: Side::Left, message: bytes("message") },
        StepView::Receive { side: Side::Right, noted: Some(seq![bytes("message")]) },
        StepView::Drop { side: Side::Right },
        StepView::ReceiveFails { side: Side::Left, within_millis: 5000 },
        StepView::Build,
        StepView::Send { side: Side::Left, message: bytes("again") },
        StepView::Receive {
            side: Side::Right,
            noted: Some(seq![bytes("message"), bytes("again")]),
        },
    ]
}

/// Verify connection establishment, peer loss, and reconnection.
///
/// Use only for connection-backed channels that detect peer loss.
pub fn build_use_drop_rebuild() -> (check: Check)
    ensures
        check@ == CheckView::fresh(rebuild_steps()),
{
    let steps: Vec<Step> = vec![
        Step::Build,
        Step::Send { side: Side::Left, message: bytes_of("message") },
        Step::Receive { side: Side::Right, noted: Some(list_of_one(bytes_of("message"))) },
        Step::Drop { side: Side::Right },
        Step::ReceiveFails { side: Side::Left, within_millis: 5000 },
        Step::Build,
        Step::Send { side: Side::Left, message: bytes_of("again") },
        Step::Receive {
            side: Side::Right,
            noted: Some(list_of_two(bytes_of("message"), bytes_of("again"))),
        },
    ];
    assert(Seq::new(steps@.len(), |i: int| steps@[i]@) =~= rebuild_steps());
    Check::new(steps)
}

/// The message of a burst with the given number: the tag of its sender, and the number
/// as far as a byte holds it.
pub open spec fn burst_message(tag: u8, index: nat) -> Seq<u8> {
    seq![tag, (index % 256) as u8]
}

/// The sending direction of an endpoint in an exchange of bursts.
#[derive(Debug)]
pub struct BurstSender {
    tag: u8,
    burst: usize,
    sent: usize,
    failed: bool,
}

/// The receiving direction of an endpoint in an exchange of bursts.
#[derive(Debug)]
pub struct BurstReceiver {
    burst: usize,
    received: usize,
    failed: bool,
}

/// The mathematical value of a [`BurstSender`].
pub ghost struct BurstSenderView {
    /// The tag of the messages.
    pub tag: u8,
    /// How many messages are to be sent.
    pub burst: nat,
    /// How many messages were sent.
    pub sent: nat,
    /// Whether a send failed.
    pub failed: bool,
}

/// The mathematical value of a [`BurstReceiver`].
pub ghost struct BurstReceiverView {
    /// How many messages are to be received.
    pub burst: nat,
    /// How many messages were received.
    pub received: nat,
    /// Whether a receive failed.
    pub failed: bool,
}

impl View for BurstSender {
    type V = BurstSenderView;

    closed spec fn view(&self) -> BurstSenderView {
        BurstSenderView {
            tag: self.tag,
            burst: self.burst as nat,
            sent: self.sent as nat,
            failed: self.failed,
        }
    }
}

impl View for BurstReceiver {
    type V = BurstReceiverView;

    closed spec fn view(&self) -> BurstReceiverView {
        BurstReceiverView {
            burst: self.burst as nat,
            received: self.received as nat,
            failed: self.failed,
        }
    }
}

impl BurstSenderView {
    /// Whether there is a message to send.
    pub open spec fn going_on(self) -> bool {
        !self.failed && self.sent < self.burst
    }
}

impl BurstReceiverView {
    /// Whether there is a message to receive.
    pub open spec fn going_on(self) -> bool {
        !self.failed && self.received < self.burst
    }
}

impl BurstSender {
    /// The next message to send, if there is one.
    pub fn next_message(&self) -> (message: Option<Vec<u8>>)
        ensures
            match message {
                Some(message) => self@.going_on() && message@ == burst_message(
                    self@.tag,
                    self@.sent,
                ),
                None => !self@.going_on(),
            },
    {
        if self.failed || self.sent >= self.burst {
            return None;
        }
        let message: Vec<u8> = vec![self.tag, (self.sent % 256) as u8];
        assert(message@ =~= burst_message(self@.tag, self@.sent));
        Some(message)
    }

    /// Takes note of the outcome of a send, which has to be success.
    pub fn sent(&mut self, result: &Result<(), SendError>)
        requires
            old(self)@.going_on(),
        ensures
            final(self)@ == if send_outcome(*result) is Ok {
                BurstSenderView { sent: old(self)@.sent + 1, ..old(self)@ }
            } else {
                BurstSenderView { failed: true, ..old(self)@ }
            },
    {
        if result.is_ok() {
            self.sent = self.sent + 1;
        } else {
            self.failed = true;
        }
    }

    /// Whether a send failed.
    pub fn failed(&self) -> (failed: bool)
        ensures
            failed == self@.failed,
    {
        self.failed
    }
}

impl BurstReceiver {
    /// Whether there is a message to receive.
    pub fn expects_message(&self) -> (expects: bool)
        ensures
            expects == self@.going_on(),
    {
        !self.failed && self.received < self.burst
    }

    /// Takes note of the outcome of a receive, which has to be a message.
    pub fn received(&mut self, result: &Result<Vec<u8>, RecvError>)
        requires
            old(self)@.going_on(),
        ensures
            final(self)@ == if recv_outcome(*result) is Ok {
                BurstReceiverView { received: old(self)@.received + 1, ..old(self)@ }
            } else {
                BurstReceiverView { failed: true, ..old(self)@ }
            },
    {
        if result.is_ok() {
            self.received = self.received + 1;
        } else {
            self.failed = true;
        }
    }

    /// Whether a receive failed.
    pub fn failed(&self) -> (failed: bool)
        ensures
            failed == self@.failed,
    {
        self.failed
    }
}

/// The two directions of an endpoint before its burst.
fn burst_endpoint(tag: u8, burst: usize) -> (endpoint: (BurstSender, BurstReceiver))
    ensures
        endpoint.0@ == (BurstSenderView { tag, burst: burst as nat, sent: 0, failed: false }),
        endpoint.1@ == (BurstReceiverView { burst: burst as nat, received: 0, failed: false }),
{
    (
        BurstSender { tag, burst, sent: 0, failed: false },
        BurstReceiver { burst, received: 0, failed: false },
    )
}

/// How long an exchange of bursts may take, in milliseconds.
pub const BURST_MILLIS: u64 = 5000;

/// Verify progress when both peers send bursts through bounded links. The result is the
/// left and the right endpoint of the exchange. Each sends and receives at once, and the
/// exchange has to be over within [`BURST_MILLIS`].
pub fn mutual_bursts_converge(burst: usize) -> (endpoints: (
    (BurstSender, BurstReceiver),
    (BurstSender, BurstReceiver),
))
    ensures
        (endpoints.0).0@ == (BurstSenderView {
            tag: 0x6c,
            burst: burst as nat,
            sent: 0,
            failed: false,
        }),
        (endpoints.0).1@ == (BurstReceiverView { burst: burst as nat, received: 0, failed: false }),
        (endpoints.1).0@ == (BurstSenderView {
            tag: 0x72,
            burst: burst as nat,
            sent: 0,
            failed: false,
        }),
        (endpoints.1).1@ == (BurstReceiverView { burst: burst as nat, received: 0, failed: false }),
{
    (burst_endpoint(0x6c, burst), burst_endpoint(0x72, burst))
}

} // verus!
