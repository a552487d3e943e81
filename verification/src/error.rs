//! The failures a channel or a channel builder reports.
//!
//! A failure is either structured (a message over the limit, a closed channel, a
//! builder that cannot reach its peer) or opaque. An opaque failure carries its
//! cause, and the cause always has a diagnostic text.

use vstd::prelude::*;

verus! {

/// An error of the RPC system: its general kind and some context in words.
#[verifier::external_type_specification]
pub struct ExRpcError(capnp::Error);

/// The general kind of an RPC error.
#[verifier::external_type_specification]
pub struct ExRpcErrorKind(capnp::ErrorKind);

/// A discriminant that the reader's schema does not know.
#[verifier::external_type_specification]
pub struct ExNotInSchema(capnp::NotInSchema);

/// Where a byte string stops being UTF-8.
#[verifier::external_type_specification]
#[verifier::external_body]
pub struct ExUtf8Error(core::str::Utf8Error);

/// The words with which the RPC system describes a kind of error: what
/// `Display` of `capnp::ErrorKind` writes.
pub uninterp spec fn rpc_kind_text(kind: capnp::ErrorKind) -> Seq<char>;

/// Describes an RPC error in words, by `to_string` of `capnp::Error`.
///
/// The text is that of the error's kind, followed, where the error has extra
/// context, by a colon, a space and that context.
#[verifier::external_body]
fn describe_rpc_error(error: &capnp::Error) -> (text: String)
    ensures
        text@ == if error.extra@.len() == 0 {
            rpc_kind_text(error.kind)
        } else {
            rpc_kind_text(error.kind) + ": "@ + error.extra@
        },
{
    error.to_string()
}

/// What lies behind an opaque failure.
#[derive(Debug)]
pub enum Cause {
    /// A diagnostic text.
    Text(String),
    /// An error of the RPC system.
    Rpc(capnp::Error),
}

/// The mathematical value of a [`Cause`].
pub ghost enum CauseView {
    Text(Seq<char>),
    Rpc { kind: capnp::ErrorKind, extra: Seq<char> },
}

/// An RPC error as a cause.
pub open spec fn rpc_cause(error: capnp::Error) -> CauseView {
    CauseView::Rpc { kind: error.kind, extra: error.extra@ }
}

impl View for Cause {
    type V = CauseView;

    open spec fn view(&self) -> CauseView {
        match self {
            Cause::Text(text) => CauseView::Text(text@),
            Cause::Rpc(error) => rpc_cause(*error),
        }
    }
}

impl CauseView {
    /// The diagnostic text of a cause.
    pub open spec fn text(self) -> Seq<char> {
        match self {
            CauseView::Text(text) => text,
            CauseView::Rpc { kind, extra } => if extra.len() == 0 {
                rpc_kind_text(kind)
            } else {
                rpc_kind_text(kind) + ": "@ + extra
            },
        }
    }
}

impl Cause {
    /// The diagnostic text of this cause.
    pub fn text(&self) -> (text: String)
        ensures
            text@ == self@.text(),
    {
        match self {
            Cause::Text(text) => text.clone(),
            Cause::Rpc(error) => describe_rpc_error(error),
        }
    }
}

/// Why a message was not sent.
#[derive(Debug)]
pub enum SendError {
    /// The message is longer than the channel's limit of `max` bytes.
    TooLarge { max: usize },
    /// The channel is closed.
    Closed,
    /// The transport failed.
    Transport(Cause),
}

/// Why no message was received.
#[derive(Debug)]
pub enum RecvError {
    /// The channel is closed.
    Closed,
    /// The transport failed.
    Transport(Cause),
}

/// Why no channel was built.
#[derive(Debug)]
pub enum BuildError {
    /// The other side cannot be reached.
    Unreachable,
    /// The transport failed.
    Transport(Cause),
}

/// The mathematical value of a [`SendError`].
pub ghost enum SendFailure {
    TooLarge { max: nat },
    Closed,
    Transport(CauseView),
}

/// The mathematical value of a [`RecvError`].
pub ghost enum RecvFailure {
    Closed,
    Transport(CauseView),
}

/// The mathematical value of a [`BuildError`].
pub ghost enum BuildFailure {
    Unreachable,
    Transport(CauseView),
}

impl View for SendError {
    type V = SendFailure;

    open spec fn view(&self) -> SendFailure {
        match self {
            SendError::TooLarge { max } => SendFailure::TooLarge { max: *max as nat },
            SendError::Closed => SendFailure::Closed,
            SendError::Transport(cause) => SendFailure::Transport(cause@),
        }
    }
}

impl View for RecvError {
    type V = RecvFailure;

    open spec fn view(&self) -> RecvFailure {
        match self {
            RecvError::Closed => RecvFailure::Closed,
            RecvError::Transport(cause) => RecvFailure::Transport(cause@),
        }
    }
}

impl View for BuildError {
    type V = BuildFailure;

    open spec fn view(&self) -> BuildFailure {
        match self {
            BuildError::Unreachable => BuildFailure::Unreachable,
            BuildError::Transport(cause) => BuildFailure::Transport(cause@),
        }
    }
}

impl SendFailure {
    /// The failure in words.
    pub open spec fn text(self) -> Seq<char> {
        match self {
            SendFailure::TooLarge { .. } => "message too large"@,
            SendFailure::Closed => "channel closed"@,
            SendFailure::Transport(cause) => cause.text(),
        }
    }
}

impl RecvFailure {
    /// The failure in words.
    pub open spec fn text(self) -> Seq<char> {
        match self {
            RecvFailure::Closed => "channel closed"@,
            RecvFailure::Transport(cause) => cause.text(),
        }
    }
}

impl BuildFailure {
    /// The failure in words.
    pub open spec fn text(self) -> Seq<char> {
        match self {
            BuildFailure::Unreachable => "peer unreachable"@,
            BuildFailure::Transport(cause) => cause.text(),
        }
    }
}

impl SendError {
    /// The failure in words. An opaque failure is told in the words of its cause.
    pub fn text(&self) -> (text: String)
        ensures
            text@ == self@.text(),
    {
        match self {
            SendError::TooLarge { .. } => "message too large".to_owned(),
            SendError::Closed => "channel closed".to_owned(),
            SendError::Transport(cause) => cause.text(),
        }
    }

    /// What lies behind the failure, where it is opaque.
    pub fn source(&self) -> (source: Option<&Cause>)
        ensures
            source == match self {
                SendError::Transport(cause) => Some(cause),
                _ => None,
            },
    {
        match self {
            SendError::Transport(cause) => Some(cause),
            _ => None,
        }
    }
}

impl RecvError {
    /// The failure in words. An opaque failure is told in the words of its cause.
    pub fn text(&self) -> (text: String)
        ensures
            text@ == self@.text(),
    {
        match self {
            RecvError::Closed => "channel closed".to_owned(),
            RecvError::Transport(cause) => cause.text(),
        }
    }

    /// What lies behind the failure, where it is opaque.
    pub fn source(&self) -> (source: Option<&Cause>)
        ensures
            source == match self {
                RecvError::Transport(cause) => Some(cause),
                _ => None,
            },
    {
        match self {
            RecvError::Transport(cause) => Some(cause),
            _ => None,
        }
    }
}

impl BuildError {
    /// The failure in words. An opaque failure is told in the words of its cause.
    pub fn text(&self) -> (text: String)
        ensures
            text@ == self@.text(),
    {
        match self {
            BuildError::Unreachable => "peer unreachable".to_owned(),
            BuildError::Transport(cause) => cause.text(),
        }
    }

    /// What lies behind the failure, where it is opaque.
    pub fn source(&self) -> (source: Option<&Cause>)
        ensures
            source == match self {
                BuildError::Transport(cause) => Some(cause),
                _ => None,
            },
    {
        match self {
            BuildError::Transport(cause) => Some(cause),
            _ => None,
        }
    }
}

/// The outcome of a send, as a mathematical value.
pub open spec fn send_outcome(result: Result<(), SendError>) -> Result<(), SendFailure> {
    match result {
        Ok(()) => Ok(()),
        Err(error) => Err(error@),
    }
}

/// The outcome of a receive, as a mathematical value.
pub open spec fn recv_outcome(result: Result<Vec<u8>, RecvError>) -> Result<Seq<u8>, RecvFailure> {
    match result {
        Ok(message) => Ok(message@),
        Err(error) => Err(error@),
    }
}

/// The outcome of a build, with the built thing as it is.
pub open spec fn build_outcome<C>(result: Result<C, BuildError>) -> Result<C, BuildFailure> {
    match result {
        Ok(channel) => Ok(channel),
        Err(error) => Err(error@),
    }
}

/// The failure of a send whose RPC call failed with `error`.
pub open spec fn rpc_send_failure(error: capnp::Error) -> SendFailure {
    if error.kind is Disconnected {
        SendFailure::Closed
    } else {
        SendFailure::Transport(rpc_cause(error))
    }
}

/// The failure of a receive whose RPC call failed with `error`.
pub open spec fn rpc_recv_failure(error: capnp::Error) -> RecvFailure {
    if error.kind is Disconnected {
        RecvFailure::Closed
    } else {
        RecvFailure::Transport(rpc_cause(error))
    }
}

/// The failure of a build whose RPC call failed with `error`.
pub open spec fn rpc_build_failure(error: capnp::Error) -> BuildFailure {
    if error.kind is Disconnected {
        BuildFailure::Unreachable
    } else {
        BuildFailure::Transport(rpc_cause(error))
    }
}

/// Reports a failed RPC call as a failed send: a lost connection closes the
/// channel, any other error is kept as the cause.
pub fn rpc_send_error(error: capnp::Error) -> (failure: SendError)
    ensures
        failure@ == rpc_send_failure(error),
{
    match error.kind {
        capnp::ErrorKind::Disconnected => SendError::Closed,
        _ => SendError::Transport(Cause::Rpc(error)),
    }
}

/// Reports a failed RPC call as a failed receive: a lost connection closes the
/// channel, any other error is kept as the cause.
pub fn rpc_recv_error(error: capnp::Error) -> (failure: RecvError)
    ensures
        failure@ == rpc_recv_failure(error),
{
    match error.kind {
        capnp::ErrorKind::Disconnected => RecvError::Closed,
        _ => RecvError::Transport(Cause::Rpc(error)),
    }
}

/// Reports a failed RPC call as a failed build: a lost connection makes the
/// other side unreachable, any other error is kept as the cause.
pub fn rpc_build_error(error: capnp::Error) -> (failure: BuildError)
    ensures
        failure@ == rpc_build_failure(error),
{
    match error.kind {
        capnp::ErrorKind::Disconnected => BuildError::Unreachable,
        _ => BuildError::Transport(Cause::Rpc(error)),
    }
}

} // verus!
