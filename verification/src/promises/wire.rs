//! Replies and outcomes.

use vstd::prelude::*;
use vstd::utf8::*;

use crate::error::{BuildError, Cause, RecvError, SendError};
use crate::rpc::wire::{
    decode_build_reply, decode_recv_reply, decode_send_reply, encode_build_result,
    encode_recv_result, encode_send_result, BuildReply, RecvReply, SendReply,
};

verus! {

use crate::rpc::wire::utf8_fault;

/// A send whose RPC call failed has failed: with closure exactly where the connection was lost,
/// and otherwise for the reason that the call failed.
pub proof fn send_fails_with_its_call(error: capnp::Error, result: Result<(), SendError>)
    requires
        call_ensures(decode_send_reply, (Err::<SendReply, capnp::Error>(error),), result),
    ensures
        result is Err,
        result->Err_0 is Closed <==> error.kind is Disconnected,
        !(error.kind is Disconnected) ==> (result->Err_0 matches SendError::Transport(
            Cause::Rpc(kept),
        ) && kept.kind == error.kind && kept.extra@ == error.extra@),
{
}

/// A receive whose RPC call failed yields no message: it has failed, with closure exactly where
/// the connection was lost, and otherwise for the reason that the call failed.
pub proof fn receive_fails_with_its_call(error: capnp::Error, result: Result<Vec<u8>, RecvError>)
    requires
        call_ensures(decode_recv_reply, (Err::<RecvReply, capnp::Error>(error),), result),
    ensures
        result is Err,
        result->Err_0 is Closed <==> error.kind is Disconnected,
        !(error.kind is Disconnected) ==> (result->Err_0 matches RecvError::Transport(
            Cause::Rpc(kept),
        ) && kept.kind == error.kind && kept.extra@ == error.extra@),
{
}

/// A build whose RPC call failed yields no channel: it has failed, with an unreachable peer
/// exactly where the connection was lost, and otherwise for the reason that the call failed.
pub proof fn build_fails_with_its_call<C>(error: capnp::Error, result: Result<C, BuildError>)
    requires
        call_ensures(decode_build_reply::<C>, (Err::<BuildReply<C>, capnp::Error>(error),), result),
    ensures
        result is Err,
        result->Err_0 is Unreachable <==> error.kind is Disconnected,
        !(error.kind is Disconnected) ==> (result->Err_0 matches BuildError::Transport(
            Cause::Rpc(kept),
        ) && kept.kind == error.kind && kept.extra@ == error.extra@),
{
}

/// What the caller of a send learns from each reply. Success is reported exactly where the
/// backend accepted the message; a limit is reported as it is, or as the largest number that
/// the caller's machine counts to; a text arrives in its characters.
pub proof fn send_learns_from_its_reply(reply: SendReply, result: Result<(), SendError>)
    requires
        call_ensures(decode_send_reply, (Ok::<SendReply, capnp::Error>(reply),), result),
    ensures
        result is Ok <==> reply is Accepted,
        reply matches SendReply::TooLarge(limit) ==> (result matches Err(
            SendError::TooLarge { max },
        ) && (limit <= usize::MAX ==> max == limit) && (limit > usize::MAX ==> max == usize::MAX)),
        reply is Closed ==> (result matches Err(SendError::Closed)),
        reply matches SendReply::Failed(text) ==> {
            &&& valid_utf8(text@) ==> (result matches Err(SendError::Transport(Cause::Text(words)))
                && words@ == decode_utf8(text@))
            &&& !valid_utf8(text@) ==> (result matches Err(SendError::Transport(Cause::Rpc(error)))
                && error.kind == capnp::ErrorKind::TextContainsNonUtf8Data(utf8_fault(text@))
                && error.extra@.len() == 0)
        },
{
}

/// What the caller of a receive learns from each reply: a message is yielded exactly where the
/// backend received one, and it is that message.
pub proof fn receive_learns_from_its_reply(reply: RecvReply, result: Result<Vec<u8>, RecvError>)
    requires
        call_ensures(decode_recv_reply, (Ok::<RecvReply, capnp::Error>(reply),), result),
    ensures
        result is Ok <==> reply is Message,
        reply matches RecvReply::Message(message) ==> (result matches Ok(received) && received@
            == message@),
        reply is Closed ==> (result matches Err(RecvError::Closed)),
        reply matches RecvReply::Failed(text) ==> {
            &&& valid_utf8(text@) ==> (result matches Err(RecvError::Transport(Cause::Text(words)))
                && words@ == decode_utf8(text@))
            &&& !valid_utf8(text@) ==> (result matches Err(RecvError::Transport(Cause::Rpc(error)))
                && error.kind == capnp::ErrorKind::TextContainsNonUtf8Data(utf8_fault(text@))
                && error.extra@.len() == 0)
        },
{
}

/// What the caller of a build learns from each reply: a channel is yielded exactly where the
/// backend built one, and it is that channel.
pub proof fn build_learns_from_its_reply<C>(reply: BuildReply<C>, result: Result<C, BuildError>)
    requires
        call_ensures(decode_build_reply::<C>, (Ok::<BuildReply<C>, capnp::Error>(reply),), result),
    ensures
        result is Ok <==> reply is Channel,
        reply matches BuildReply::Channel(channel) ==> result == Ok::<C, BuildError>(channel),
        reply is Unreachable ==> (result matches Err(BuildError::Unreachable)),
        reply matches BuildReply::Failed(text) ==> {
            &&& valid_utf8(text@) ==> (result matches Err(BuildError::Transport(Cause::Text(words)))
                && words@ == decode_utf8(text@))
            &&& !valid_utf8(text@) ==> (result matches Err(BuildError::Transport(Cause::Rpc(error)))
                && error.kind == capnp::ErrorKind::TextContainsNonUtf8Data(utf8_fault(text@))
                && error.extra@.len() == 0)
        },
{
}

/// A send is reported as it ended, and the caller learns that: success is success, a limit is
/// that limit, closure is closure, and an opaque failure arrives in the words of its cause.
pub proof fn send_is_learned_as_it_ended(
    ended: Result<(), SendError>,
    reply: SendReply,
    learned: Result<(), SendError>,
    cause: Cause,
    words: String,
)
    requires
        call_ensures(encode_send_result, (ended,), reply),
        call_ensures(decode_send_reply, (Ok::<SendReply, capnp::Error>(reply),), learned),
        call_ensures(Cause::text, (&cause,), words),
    ensures
        ended is Ok <==> reply is Accepted,
        ended is Ok <==> learned is Ok,
        ended matches Err(SendError::TooLarge { max }) ==> {
            &&& reply matches SendReply::TooLarge(limit) && limit == max
            &&& learned matches Err(SendError::TooLarge { max: learned_max }) && learned_max == max
        },
        ended matches Err(SendError::Closed) ==> {
            &&& reply is Closed
            &&& learned matches Err(SendError::Closed)
        },
        ended == Err::<(), SendError>(SendError::Transport(cause)) ==> {
            &&& reply matches SendReply::Failed(text) && text@ == encode_utf8(words@)
            &&& learned matches Err(SendError::Transport(Cause::Text(arrived))) && arrived@
                == words@
        },
{
    encode_utf8_valid_utf8(words@);
    encode_utf8_decode_utf8(words@);
}

/// A receive is reported as it ended, and the caller learns that: a message arrives byte for
/// byte, closure is closure, and an opaque failure arrives in the words of its cause.
pub proof fn receive_is_learned_as_it_ended(
    ended: Result<Vec<u8>, RecvError>,
    reply: RecvReply,
    learned: Result<Vec<u8>, RecvError>,
    cause: Cause,
    words: String,
)
    requires
        call_ensures(encode_recv_result, (ended,), reply),
        call_ensures(decode_recv_reply, (Ok::<RecvReply, capnp::Error>(reply),), learned),
        call_ensures(Cause::text, (&cause,), words),
    ensures
        ended is Ok <==> reply is Message,
        ended is Ok <==> learned is Ok,
        ended matches Ok(message) ==> {
            &&& reply matches RecvReply::Message(sent) && sent@ == message@
            &&& learned matches Ok(received) && received@ == message@
        },
        ended matches Err(RecvError::Closed) ==> {
            &&& reply is Closed
            &&& learned matches Err(RecvError::Closed)
        },
        ended == Err::<Vec<u8>, RecvError>(RecvError::Transport(cause)) ==> {
            &&& reply matches RecvReply::Failed(text) && text@ == encode_utf8(words@)
            &&& learned matches Err(RecvError::Transport(Cause::Text(arrived))) && arrived@
                == words@
        },
{
    encode_utf8_valid_utf8(words@);
    encode_utf8_decode_utf8(words@);
}

/// A build is reported as it ended, and the caller learns that: a channel is that channel, an
/// unreachable peer is one, and an opaque failure arrives in the words of its cause.
pub proof fn build_is_learned_as_it_ended<C>(
    ended: Result<C, BuildError>,
    reply: BuildReply<C>,
    learned: Result<C, BuildError>,
    cause: Cause,
    words: String,
)
    requires
        call_ensures(encode_build_result::<C>, (ended,), reply),
        call_ensures(decode_build_reply::<C>, (Ok::<BuildReply<C>, capnp::Error>(reply),), learned),
        call_ensures(Cause::text, (&cause,), words),
    ensures
        ended is Ok <==> reply is Channel,
        ended is Ok <==> learned is Ok,
        ended matches Ok(channel) ==> {
            &&& reply == BuildReply::Channel(channel)
            &&& learned == Ok::<C, BuildError>(channel)
        },
        ended matches Err(BuildError::Unreachable) ==> {
            &&& reply is Unreachable
            &&& learned matches Err(BuildError::Unreachable)
        },
        ended == Err::<C, BuildError>(BuildError::Transport(cause)) ==> {
            &&& reply matches BuildReply::Failed(text) && text@ == encode_utf8(words@)
            &&& learned matches Err(BuildError::Transport(Cause::Text(arrived))) && arrived@
                == words@
        },
{
    encode_utf8_valid_utf8(words@);
    encode_utf8_decode_utf8(words@);
}

/// Every reply and every failed call is taken, and every outcome is reported.
pub proof fn nothing_is_left_out<C>(
    send: Result<SendReply, capnp::Error>,
    sent: Result<(), SendError>,
    recv: Result<RecvReply, capnp::Error>,
    received: Result<Vec<u8>, RecvError>,
    build: Result<BuildReply<C>, capnp::Error>,
    built: Result<C, BuildError>,
)
    ensures
        call_requires(decode_send_reply, (send,)),
        call_requires(encode_send_result, (sent,)),
        call_requires(decode_recv_reply, (recv,)),
        call_requires(encode_recv_result, (received,)),
        call_requires(decode_build_reply::<C>, (build,)),
        call_requires(encode_build_result::<C>, (built,)),
{
}

} // verus!
