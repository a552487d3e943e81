//! Failures and their words.

use vstd::prelude::*;

use crate::error::{
    rpc_build_error, rpc_recv_error, rpc_send_error, BuildError, Cause, RecvError, SendError,
};

verus! {

use crate::error::rpc_kind_text;

/// A failed RPC call closes a send exactly where the connection was lost; any other error is
/// kept as the cause, with its kind and its context.
pub proof fn failed_call_fails_a_send(error: capnp::Error, failure: SendError)
    requires
        call_ensures(rpc_send_error, (error,), failure),
    ensures
        failure is Closed <==> error.kind is Disconnected,
        !(error.kind is Disconnected) ==> (failure matches SendError::Transport(Cause::Rpc(kept))
            && kept.kind == error.kind && kept.extra@ == error.extra@),
{
}

/// A failed RPC call closes a receive exactly where the connection was lost; any other error is
/// kept as the cause, with its kind and its context.
pub proof fn failed_call_fails_a_receive(error: capnp::Error, failure: RecvError)
    requires
        call_ensures(rpc_recv_error, (error,), failure),
    ensures
        failure is Closed <==> error.kind is Disconnected,
        !(error.kind is Disconnected) ==> (failure matches RecvError::Transport(Cause::Rpc(kept))
            && kept.kind == error.kind && kept.extra@ == error.extra@),
{
}

/// A failed RPC call makes the peer of a build unreachable exactly where the connection was
/// lost; any other error is kept as the cause, with its kind and its context.
pub proof fn failed_call_fails_a_build(error: capnp::Error, failure: BuildError)
    requires
        call_ensures(rpc_build_error, (error,), failure),
    ensures
        failure is Unreachable <==> error.kind is Disconnected,
        !(error.kind is Disconnected) ==> (failure matches BuildError::Transport(Cause::Rpc(kept))
            && kept.kind == error.kind && kept.extra@ == error.extra@),
{
}

/// A cause is told in its own words: a text as it is, an RPC error by its kind and, behind a
/// colon, by its context where it has one.
pub proof fn cause_in_words(cause: Cause, text: String)
    requires
        call_ensures(Cause::text, (&cause,), text),
    ensures
        cause matches Cause::Text(words) ==> text@ == words@,
        cause matches Cause::Rpc(error) ==> {
            &&& error.extra@.len() == 0 ==> text@ == rpc_kind_text(error.kind)
            &&& error.extra@.len() > 0 ==> text@ == rpc_kind_text(error.kind) + ": "@ + error.extra@
        },
{
}

/// A failed send is told in words of its own where it is structured, and otherwise in those of
/// its cause.
pub proof fn failed_send_in_words(failure: SendError, text: String, cause: Cause, words: String)
    requires
        call_ensures(SendError::text, (&failure,), text),
        call_ensures(Cause::text, (&cause,), words),
    ensures
        failure is TooLarge ==> text@ == "message too large"@,
        failure is Closed ==> text@ == "channel closed"@,
        failure == SendError::Transport(cause) ==> text@ == words@,
{
}

/// A failed receive is told in words of its own where it is structured, and otherwise in those
/// of its cause.
pub proof fn failed_receive_in_words(failure: RecvError, text: String, cause: Cause, words: String)
    requires
        call_ensures(RecvError::text, (&failure,), text),
        call_ensures(Cause::text, (&cause,), words),
    ensures
        failure is Closed ==> text@ == "channel closed"@,
        failure == RecvError::Transport(cause) ==> text@ == words@,
{
}

/// A failed build is told in words of its own where it is structured, and otherwise in those of
/// its cause.
pub proof fn failed_build_in_words(failure: BuildError, text: String, cause: Cause, words: String)
    requires
        call_ensures(BuildError::text, (&failure,), text),
        call_ensures(Cause::text, (&cause,), words),
    ensures
        failure is Unreachable ==> text@ == "peer unreachable"@,
        failure == BuildError::Transport(cause) ==> text@ == words@,
{
}

/// Exactly the opaque failures have a cause behind them, and it is the one they were made
/// with.
pub proof fn opaque_failures_have_a_cause(
    send: SendError,
    of_send: Option<&Cause>,
    recv: RecvError,
    of_recv: Option<&Cause>,
    build: BuildError,
    of_build: Option<&Cause>,
)
    requires
        call_ensures(SendError::source, (&send,), of_send),
        call_ensures(RecvError::source, (&recv,), of_recv),
        call_ensures(BuildError::source, (&build,), of_build),
    ensures
        of_send is Some <==> send is Transport,
        of_recv is Some <==> recv is Transport,
        of_build is Some <==> build is Transport,
        of_send matches Some(cause) ==> send == SendError::Transport(*cause),
        of_recv matches Some(cause) ==> recv == RecvError::Transport(*cause),
        of_build matches Some(cause) ==> build == BuildError::Transport(*cause),
{
}

/// Every error of the RPC system is reported, and every failure can be told in words.
pub proof fn every_error_is_reported(
    error: capnp::Error,
    cause: Cause,
    send: SendError,
    recv: RecvError,
    build: BuildError,
)
    ensures
        call_requires(rpc_send_error, (error,)),
        call_requires(rpc_recv_error, (error,)),
        call_requires(rpc_build_error, (error,)),
        call_requires(Cause::text, (&cause,)),
        call_requires(SendError::text, (&send,)),
        call_requires(RecvError::text, (&recv,)),
        call_requires(BuildError::text, (&build,)),
{
}

} // verus!
