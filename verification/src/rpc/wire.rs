//! The replies that cross the RPC boundary.
//!
//! A reply is plain data: the serving side turns the outcome of an operation into
//! a reply, the calling side turns a reply, or the failure of the call itself,
//! back into an outcome. Text crosses as UTF-8 bytes.

use vstd::prelude::*;
use vstd::slice::slice_to_vec;
use vstd::utf8::*;

use crate::error::{
    rpc_build_error, rpc_recv_error, rpc_send_error, BuildError, Cause, RecvError, SendError,
};

verus! {

use crate::error::{
    build_outcome, recv_outcome, rpc_build_failure, rpc_recv_failure, rpc_send_failure,
    send_outcome, BuildFailure, CauseView, RecvFailure, SendFailure,
};

/// A text as the RPC system reads it: bytes that ought to be UTF-8.
#[verifier::external_type_specification]
pub struct ExTextReader<'a>(capnp::text::Reader<'a>);

/// Where the given bytes stop being UTF-8: the error that `to_str` of
/// `capnp::text::Reader` reports for them.
pub uninterp spec fn utf8_fault(bytes: Seq<u8>) -> core::str::Utf8Error;

/// Reads a text with `capnp::text::Reader::to_str`: the characters that the
/// bytes encode where they are UTF-8, and otherwise where they fail to be.
pub assume_specification<'a>[ capnp::text::Reader::<'a>::to_str ](
    reader: capnp::text::Reader<'a>,
) -> (text: Result<&'a str, core::str::Utf8Error>)
    ensures
        match text {
            Ok(text) => valid_utf8(reader.0@) && text@ == decode_utf8(reader.0@),
            Err(fault) => !valid_utf8(reader.0@) && fault == utf8_fault(reader.0@),
        },
;

/// Reports bytes that are not UTF-8 as an RPC error, by the conversion of
/// `core::str::Utf8Error` into `capnp::Error`: an error of the kind for text that
/// is not UTF-8, without further context.
#[verifier::external_body]
fn text_error(fault: core::str::Utf8Error) -> (error: capnp::Error)
    ensures
        error.kind == capnp::ErrorKind::TextContainsNonUtf8Data(fault),
        error.extra@ == Seq::<char>::empty(),
{
    capnp::Error::from(fault)
}

/// The reply to a request to send a message.
#[derive(Debug)]
pub enum SendReply {
    /// The backend accepted the message.
    Accepted,
    /// The backend's limit, in bytes, is below the length of the message.
    TooLarge(u64),
    /// The backend is closed.
    Closed,
    /// The backend failed; a diagnostic text in UTF-8.
    Failed(Vec<u8>),
}

/// The reply to a request to receive a message.
#[derive(Debug)]
pub enum RecvReply {
    /// The message received.
    Message(Vec<u8>),
    /// The backend is closed.
    Closed,
    /// The backend failed; a diagnostic text in UTF-8.
    Failed(Vec<u8>),
}

/// The reply to a request to build a channel.
#[derive(Debug)]
pub enum BuildReply<C> {
    /// The channel built.
    Channel(C),
    /// The backend cannot reach the other side.
    Unreachable,
    /// The backend failed; a diagnostic text in UTF-8.
    Failed(Vec<u8>),
}

/// The mathematical value of a [`SendReply`].
pub ghost enum SendReplyView {
    Accepted,
    TooLarge(nat),
    Closed,
    Failed(Seq<u8>),
}

/// The mathematical value of a [`RecvReply`].
pub ghost enum RecvReplyView {
    Message(Seq<u8>),
    Closed,
    Failed(Seq<u8>),
}

/// The mathematical value of a [`BuildReply`].
#[verifier::reject_recursive_types(C)]
pub ghost enum BuildReplyView<C> {
    Channel(C),
    Unreachable,
    Failed(Seq<u8>),
}

impl View for SendReply {
    type V = SendReplyView;

    open spec fn view(&self) -> SendReplyView {
        match self {
            SendReply::Accepted => SendReplyView::Accepted,
            SendReply::TooLarge(max) => SendReplyView::TooLarge(*max as nat),
            SendReply::Closed => SendReplyView::Closed,
            SendReply::Failed(text) => SendReplyView::Failed(text@),
        }
    }
}

impl View for RecvReply {
    type V = RecvReplyView;

    open spec fn view(&self) -> RecvReplyView {
        match self {
            RecvReply::Message(message) => RecvReplyView::Message(message@),
            RecvReply::Closed => RecvReplyView::Closed,
            RecvReply::Failed(text) => RecvReplyView::Failed(text@),
        }
    }
}

impl<C> View for BuildReply<C> {
    type V = BuildReplyView<C>;

    open spec fn view(&self) -> BuildReplyView<C> {
        match self {
            BuildReply::Channel(channel) => BuildReplyView::Channel(*channel),
            BuildReply::Unreachable => BuildReplyView::Unreachable,
            BuildReply::Failed(text) => BuildReplyView::Failed(text@),
        }
    }
}

/// A reply, or the error of the call that should have brought it.
pub open spec fn arrived<R: View>(reply: Result<R, capnp::Error>) -> Result<R::V, capnp::Error> {
    match reply {
        Ok(reply) => Ok(reply@),
        Err(error) => Err(error),
    }
}

/// The cause that a diagnostic text stands for: the text itself, or, where the
/// bytes are not UTF-8, the error of reading them.
pub open spec fn failed_cause(text: Seq<u8>) -> CauseView {
    if valid_utf8(text) {
        CauseView::Text(decode_utf8(text))
    } else {
        CauseView::Rpc {
            kind: capnp::ErrorKind::TextContainsNonUtf8Data(utf8_fault(text)),
            extra: Seq::empty(),
        }
    }
}

/// What the caller of a send learns from a reply. A limit that the caller's
/// machine cannot count to is reported as the largest that it can.
pub open spec fn send_answer(
    reply: Result<SendReplyView, capnp::Error>,
) -> Result<(), SendFailure> {
    match reply {
        Err(error) => Err(rpc_send_failure(error)),
        Ok(SendReplyView::Accepted) => Ok(()),
        Ok(SendReplyView::TooLarge(max)) => Err(
            SendFailure::TooLarge { max: if max <= usize::MAX { max } else { usize::MAX as nat } },
        ),
        Ok(SendReplyView::Closed) => Err(SendFailure::Closed),
        Ok(SendReplyView::Failed(text)) => Err(SendFailure::Transport(failed_cause(text))),
    }
}

/// What the caller of a receive learns from a reply.
pub open spec fn recv_answer(
    reply: Result<RecvReplyView, capnp::Error>,
) -> Result<Seq<u8>, RecvFailure> {
    match reply {
        Err(error) => Err(rpc_recv_failure(error)),
        Ok(RecvReplyView::Message(message)) => Ok(message),
        Ok(RecvReplyView::Closed) => Err(RecvFailure::Closed),
        Ok(RecvReplyView::Failed(text)) => Err(RecvFailure::Transport(failed_cause(text))),
    }
}

/// What the caller of a build learns from a reply.
pub open spec fn build_answer<C>(
    reply: Result<BuildReplyView<C>, capnp::Error>,
) -> Result<C, BuildFailure> {
    match reply {
        Err(error) => Err(rpc_build_failure(error)),
        Ok(BuildReplyView::Channel(channel)) => Ok(channel),
        Ok(BuildReplyView::Unreachable) => Err(BuildFailure::Unreachable),
        Ok(BuildReplyView::Failed(text)) => Err(BuildFailure::Transport(failed_cause(text))),
    }
}

/// Reads a diagnostic text.
fn read_cause(text: &Vec<u8>) -> (cause: Result<String, capnp::Error>)
    ensures
        match cause {
            Ok(cause) => CauseView::Text(cause@) == failed_cause(text@),
            Err(error) => {
                &&& !(error.kind is Disconnected)
                &&& crate::error::rpc_cause(error) == failed_cause(text@)
            },
        },
{
    match capnp::text::Reader(text.as_slice()).to_str() {
        Ok(text) => Ok(text.to_owned()),
        Err(fault) => Err(text_error(fault)),
    }
}

/// Turns the reply to a send request, or the failure of the call, into the
/// outcome of the send.
pub fn decode_send_reply(reply: Result<SendReply, capnp::Error>) -> (result: Result<(), SendError>)
    ensures
        send_outcome(result) == send_answer(arrived(reply)),
{
    match reply {
        Err(error) => Err(rpc_send_error(error)),
        Ok(SendReply::Accepted) => Ok(()),
        Ok(SendReply::TooLarge(max)) => Err(
            SendError::TooLarge {
                max: if max <= usize::MAX as u64 {
                    max as usize
                } else {
                    usize::MAX
                },
            },
        ),
        Ok(SendReply::Closed) => Err(SendError::Closed),
        Ok(SendReply::Failed(text)) => match read_cause(&text) {
            Ok(cause) => Err(SendError::Transport(Cause::Text(cause))),
            Err(error) => Err(rpc_send_error(error)),
        },
    }
}

/// Turns the reply to a receive request, or the failure of the call, into the
/// outcome of the receive.
pub fn decode_recv_reply(reply: Result<RecvReply, capnp::Error>) -> (result: Result<
    Vec<u8>,
    RecvError,
>)
    ensures
        recv_outcome(result) == recv_answer(arrived(reply)),
{
    match reply {
        Err(error) => Err(rpc_recv_error(error)),
        Ok(RecvReply::Message(message)) => Ok(message),
        Ok(RecvReply::Closed) => Err(RecvError::Closed),
        Ok(RecvReply::Failed(text)) => match read_cause(&text) {
            Ok(cause) => Err(RecvError::Transport(Cause::Text(cause))),
            Err(error) => Err(rpc_recv_error(error)),
        },
    }
}

/// Turns the reply to a build request, or the failure of the call, into the
/// outcome of the build.
pub fn decode_build_reply<C>(reply: Result<BuildReply<C>, capnp::Error>) -> (result: Result<
    C,
    BuildError,
>)
    ensures
        build_outcome(result) == build_answer(arrived(reply)),
{
    match reply {
        Err(error) => Err(rpc_build_error(error)),
        Ok(BuildReply::Channel(channel)) => Ok(channel),
        Ok(BuildReply::Unreachable) => Err(BuildError::Unreachable),
        Ok(BuildReply::Failed(text)) => match read_cause(&text) {
            Ok(cause) => Err(BuildError::Transport(Cause::Text(cause))),
            Err(error) => Err(rpc_build_error(error)),
        },
    }
}

/// The reply that reports the outcome of a send.
pub open spec fn send_report(result: Result<(), SendFailure>) -> SendReplyView {
    match result {
        Ok(()) => SendReplyView::Accepted,
        Err(SendFailure::TooLarge { max }) => SendReplyView::TooLarge(max),
        Err(SendFailure::Closed) => SendReplyView::Closed,
        Err(SendFailure::Transport(cause)) => SendReplyView::Failed(encode_utf8(cause.text())),
    }
}

/// The reply that reports the outcome of a receive.
pub open spec fn recv_report(result: Result<Seq<u8>, RecvFailure>) -> RecvReplyView {
    match result {
        Ok(message) => RecvReplyView::Message(message),
        Err(RecvFailure::Closed) => RecvReplyView::Closed,
        Err(RecvFailure::Transport(cause)) => RecvReplyView::Failed(encode_utf8(cause.text())),
    }
}

/// The reply that reports the outcome of a build.
pub open spec fn build_report<C>(result: Result<C, BuildFailure>) -> BuildReplyView<C> {
    match result {
        Ok(channel) => BuildReplyView::Channel(channel),
        Err(BuildFailure::Unreachable) => BuildReplyView::Unreachable,
        Err(BuildFailure::Transport(cause)) => BuildReplyView::Failed(encode_utf8(cause.text())),
    }
}

/// The UTF-8 bytes of a cause's diagnostic text.
fn write_cause(cause: &Cause) -> (text: Vec<u8>)
    ensures
        text@ == encode_utf8(cause@.text()),
{
    let text = cause.text();
    slice_to_vec(text.as_str().as_bytes())
}

/// Reports the outcome of a send as a reply.
pub fn encode_send_result(result: Result<(), SendError>) -> (reply: SendReply)
    ensures
        reply@ == send_report(send_outcome(result)),
{
    match result {
        Ok(()) => SendReply::Accepted,
        Err(SendError::TooLarge { max }) => SendReply::TooLarge(max as u64),
        Err(SendError::Closed) => SendReply::Closed,
        Err(SendError::Transport(cause)) => SendReply::Failed(write_cause(&cause)),
    }
}

/// Reports the outcome of a receive as a reply.
pub fn encode_recv_result(result: Result<Vec<u8>, RecvError>) -> (reply: RecvReply)
    ensures
        reply@ == recv_report(recv_outcome(result)),
{
    match result {
        Ok(message) => RecvReply::Message(message),
        Err(RecvError::Closed) => RecvReply::Closed,
        Err(RecvError::Transport(cause)) => RecvReply::Failed(write_cause(&cause)),
    }
}

/// Reports the outcome of a build as a reply.
pub fn encode_build_result<C>(result: Result<C, BuildError>) -> (reply: BuildReply<C>)
    ensures
        reply@ == build_report(build_outcome(result)),
{
    match result {
        Ok(channel) => BuildReply::Channel(channel),
        Err(BuildError::Unreachable) => BuildReply::Unreachable,
        Err(BuildError::Transport(cause)) => BuildReply::Failed(write_cause(&cause)),
    }
}

} // verus!
