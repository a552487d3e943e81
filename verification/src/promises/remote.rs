//! Remote channels and builders.

use std::sync::Arc;

use tokio::sync::{mpsc, oneshot};
use vstd::prelude::*;
use vstd::utf8::*;

use crate::error::{BuildError, Cause, RecvError, SendError};
use crate::rpc::client::{
    actor_step, dispatch_build, new_link, receive_message, receive_requested, send_message,
    settle_build, settle_receive, settle_send, ActorEvent, ActorStep, Bootstrap, BuildCall,
    BuildCommand, CapnpAcceptor, CapnpBuilder, CapnpChannel, CapnpRecvHalf, CapnpSendHalf,
    ChannelCommand, Link, PendingReceive, RecvResponse, RecvStep, RemoteChannel, SendCall,
};
use crate::rpc::wire::BuildReply;

verus! {

use crate::rpc::wire::utf8_fault;

/// A send is refused exactly where the message is longer than the limit, and then with that
/// limit. Otherwise the command that is queued carries the message byte for byte, whatever
/// its length, and is answered where the caller waits.
pub proof fn send_asks_for_the_very_message(
    max: usize,
    message: Vec<u8>,
    call: Result<SendCall, SendError>,
)
    requires
        call_ensures(send_message, (max, message), call),
    ensures
        call is Ok <==> message@.len() <= max,
        call matches Ok(call) ==> (call.command matches ChannelCommand::Send(payload, answer)
            && payload@ == message@ && call_ensures(
            oneshot::channel::<Result<(), SendError>>,
            (),
            (answer, call.response),
        )),
        call matches Err(error) ==> (error matches SendError::TooLarge { max: limit } && limit
            == max),
{
}

/// A channel that was opened with a limit refuses exactly the messages that are longer, with
/// that limit, and asks for every other one byte for byte: as a whole, and through its sending
/// half, whatever is outstanding.
pub proof fn opened_channel_sends_within_its_limit(
    max: usize,
    parts: (CapnpChannel, Bootstrap, mpsc::Receiver<()>),
    message: Vec<u8>,
    whole: Result<SendCall, SendError>,
    channel: &mut CapnpChannel,
    halves: (CapnpSendHalf<'_>, CapnpRecvHalf<'_>),
    half: Result<SendCall, SendError>,
)
    requires
        call_ensures(CapnpChannel::open, (max,), parts),
        call_ensures(CapnpChannel::start_send, (&parts.0, message), whole),
        *old(channel) == parts.0,
        call_ensures(CapnpChannel::split, (channel,), halves),
        call_ensures(CapnpSendHalf::start_send, (&halves.0, message), half),
    ensures
        whole is Ok <==> message@.len() <= max,
        whole matches Ok(call) ==> (call.command matches ChannelCommand::Send(payload, answer)
            && payload@ == message@ && call_ensures(
            oneshot::channel::<Result<(), SendError>>,
            (),
            (answer, call.response),
        )),
        whole matches Err(error) ==> (error matches SendError::TooLarge { max: limit } && limit
            == max),
        half is Ok <==> message@.len() <= max,
        half matches Ok(call) ==> (call.command matches ChannelCommand::Send(payload, answer)
            && payload@ == message@ && call_ensures(
            oneshot::channel::<Result<(), SendError>>,
            (),
            (answer, call.response),
        )),
        half matches Err(error) ==> (error matches SendError::TooLarge { max: limit } && limit
            == max),
{
}

/// A new channel is ready for use: its commands go to the client of its connection, two of
/// which can wait, nothing is outstanding, and the connection learns of the end of its
/// link.
pub proof fn opened_channel_is_wired(
    max: usize,
    parts: (CapnpChannel, Bootstrap, mpsc::Receiver<()>),
    commands: &mpsc::Sender<ChannelCommand>,
)
    requires
        call_ensures(CapnpChannel::open, (max,), parts),
        call_ensures(CapnpChannel::commands, (&parts.0,), commands),
    ensures
        parts.1 matches Bootstrap::Channel(receiver) && call_ensures(
            mpsc::channel::<ChannelCommand>,
            (2,),
            (*commands, receiver),
        ),
        parts.0.pending() is None,
        call_ensures(mpsc::channel::<()>, (1,), (parts.0.link().lifetime(), parts.2)),
{
}

/// A channel on a link keeps that link, and with it the limit: a link that was made with a limit
/// gives it back, and the connection learns of the end of the link.
pub proof fn attached_channel_shares_its_link(
    max: usize,
    made: (Arc<Link>, mpsc::Receiver<()>),
    limit: usize,
    ends: (CapnpChannel, mpsc::Receiver<ChannelCommand>),
    commands: &mpsc::Sender<ChannelCommand>,
    message: Vec<u8>,
    call: Result<SendCall, SendError>,
)
    requires
        call_ensures(new_link, (max,), made),
        call_ensures(Link::max_message_len, (&*made.0,), limit),
        call_ensures(CapnpChannel::attach, (made.0,), ends),
        call_ensures(CapnpChannel::commands, (&ends.0,), commands),
        call_ensures(CapnpChannel::start_send, (&ends.0, message), call),
    ensures
        limit == max,
        call is Ok <==> message@.len() <= max,
        ends.0.link() == *made.0,
        ends.0.pending() is None,
        call_ensures(mpsc::channel::<()>, (1,), (made.0.lifetime(), made.1)),
        call_ensures(mpsc::channel::<ChannelCommand>, (2,), (*commands, ends.1)),
{
}

/// Both halves of a channel queue their commands where the channel does, the receiving half goes
/// on with what is outstanding, and what it leaves outstanding is what the channel has
/// afterwards.
pub proof fn halves_share_their_channel(
    channel: &mut CapnpChannel,
    halves: (CapnpSendHalf<'_>, CapnpRecvHalf<'_>),
)
    requires
        call_ensures(CapnpChannel::split, (channel,), halves),
    ensures
        *halves.0.commands == old(channel).commands_handle(),
        *halves.1.commands == old(channel).commands_handle(),
        *old(halves.1.pending) == old(channel).pending(),
        final(channel).pending() == *final(halves.1.pending),
        final(channel).commands_handle() == old(channel).commands_handle(),
        final(channel).link() == old(channel).link(),
{
}

/// A send ends with its answer, and with closure where there is none.
pub proof fn send_ends_with_its_answer(
    answer: Option<Result<(), SendError>>,
    result: Result<(), SendError>,
)
    requires
        call_ensures(settle_send, (answer,), result),
    ensures
        answer matches Some(answer) ==> result == answer,
        answer is None ==> (result matches Err(SendError::Closed)),
{
}

/// A build ends with its answer, and with an unreachable peer where there is none.
pub proof fn build_ends_with_its_answer<C>(
    answer: Option<Result<C, BuildError>>,
    result: Result<C, BuildError>,
)
    requires
        call_ensures(settle_build::<C>, (answer,), result),
    ensures
        answer matches Some(answer) ==> result == answer,
        answer is None ==> (result matches Err(BuildError::Unreachable)),
{
}

/// A receive asks for a message exactly where no response is outstanding, and then is answered
/// where it waits; a receive that was abandoned is gone on with, not repeated.
pub proof fn receive_asks_only_once(pending: PendingReceive, step: RecvStep)
    requires
        call_ensures(receive_message, (&pending,), step),
    ensures
        step is Request <==> pending is None,
        step matches RecvStep::Request(call) ==> (call.command matches ChannelCommand::Recv(answer)
            && call_ensures(
            oneshot::channel::<Result<Vec<u8>, RecvError>>,
            (),
            (answer, call.response),
        )),
{
}

/// A receive whose request was queued leaves the response of that request outstanding, so that
/// the next receive waits for it; one whose request was not queued is closed and changes
/// nothing.
pub proof fn queued_request_stays_outstanding(
    pending: &mut PendingReceive,
    response: RecvResponse,
    queued: bool,
    result: Result<(), RecvError>,
    step: RecvStep,
)
    requires
        call_ensures(receive_requested, (pending, response, queued), result),
        call_ensures(receive_message, (&*final(pending),), step),
    ensures
        queued ==> result is Ok && *final(pending) == Some(response) && step is Await,
        !queued ==> (result matches Err(RecvError::Closed)) && *final(pending) == *old(pending),
{
}

/// A receive ends with the answer that the outstanding response brought, or with closure where
/// it brought none, and then nothing is outstanding: the next receive asks anew.
pub proof fn receive_ends_with_its_answer(
    pending: &mut PendingReceive,
    answer: Option<Result<Vec<u8>, RecvError>>,
    result: Result<Vec<u8>, RecvError>,
    step: RecvStep,
)
    requires
        call_ensures(settle_receive, (pending, answer), result),
        call_ensures(receive_message, (&*final(pending),), step),
    ensures
        answer matches Some(answer) ==> result == answer,
        answer is None ==> (result matches Err(RecvError::Closed)),
        *final(pending) is None,
        step is Request,
{
}

/// A builder that was opened passes each token on as it is, to the client of its connection,
/// and is answered where the caller waits; as an acceptor it passes the empty token on, to
/// the same client.
pub proof fn opened_builder_passes_tokens_on(
    max: usize,
    parts: (CapnpBuilder, Bootstrap, mpsc::Receiver<()>),
    token: Vec<u8>,
    call: BuildCall<'_>,
    commands: &mpsc::Sender<BuildCommand>,
    acceptor: CapnpAcceptor,
    acceptance: BuildCall<'_>,
    accepting: &mpsc::Sender<BuildCommand>,
)
    requires
        call_ensures(CapnpBuilder::open, (max,), parts),
        call_ensures(CapnpBuilder::start_build, (&parts.0, &token), call),
        call_ensures(CapnpBuilder::commands, (&parts.0,), commands),
        call_ensures(CapnpBuilder::into_acceptor, (parts.0,), acceptor),
        call_ensures(CapnpAcceptor::start_build, (&acceptor,), acceptance),
        call_ensures(CapnpAcceptor::commands, (&acceptor,), accepting),
    ensures
        parts.1 matches Bootstrap::Builder(receiver) && call_ensures(
            mpsc::channel::<BuildCommand>,
            (1,),
            (*commands, receiver),
        ),
        call_ensures(mpsc::channel::<()>, (1,), (parts.0.shared_link().lifetime(), parts.2)),
        *call.commands == *commands,
        call.command.input@ == token@,
        call_ensures(
            oneshot::channel::<Result<CapnpChannel, BuildError>>,
            (),
            (call.command.reply, call.response),
        ),
        *accepting == *commands,
        *acceptance.commands == *commands,
        acceptance.command.input@.len() == 0,
        call_ensures(
            oneshot::channel::<Result<CapnpChannel, BuildError>>,
            (),
            (acceptance.command.reply, acceptance.response),
        ),
{
}

/// A build yields a channel exactly where the other side built one and a handle of the
/// connection is still there. The channel is a handle on what was built, shares the link of
/// the connection and with it the limit, and has nothing outstanding. Without a
/// handle, or where the connection was lost, the peer is unreachable.
pub proof fn build_yields_what_was_built<C>(
    reply: Result<BuildReply<C>, capnp::Error>,
    link: Option<Arc<Link>>,
    limit: usize,
    result: Result<RemoteChannel<C>, BuildError>,
    message: Vec<u8>,
    call: Result<SendCall, SendError>,
)
    requires
        call_ensures(dispatch_build::<C>, (reply, link), result),
        link matches Some(link) ==> call_ensures(Link::max_message_len, (&*link,), limit),
        result matches Ok(built) ==> call_ensures(
            CapnpChannel::start_send,
            (&built.channel, message),
            call,
        ),
    ensures
        result is Ok <==> link is Some && (reply matches Ok(BuildReply::Channel(_))),
        result matches Ok(built) ==> {
            &&& reply == Ok::<BuildReply<C>, capnp::Error>(BuildReply::Channel(built.remote))
            &&& built.channel.link() == *link->0
            &&& built.channel.pending() is None
            &&& call_ensures(
                mpsc::channel::<ChannelCommand>,
                (2,),
                (built.channel.commands_handle(), built.commands),
            )
            &&& call is Ok <==> message@.len() <= limit
        },
        (reply matches Ok(BuildReply::Channel(_))) && link is None ==> (result matches Err(
            BuildError::Unreachable,
        )),
        (reply matches Ok(BuildReply::Unreachable)) ==> (result matches Err(
            BuildError::Unreachable,
        )),
        reply matches Err(error) ==> {
            &&& result matches Err(failure) && (failure is Unreachable <==> error.kind
                is Disconnected)
            &&& !(error.kind is Disconnected) ==> (result matches Err(
                BuildError::Transport(Cause::Rpc(kept)),
            ) && kept.kind == error.kind && kept.extra@ == error.extra@)
        },
        reply matches Ok(BuildReply::Failed(text)) ==> {
            &&& result matches Err(BuildError::Transport(_))
            &&& valid_utf8(text@) ==> (result matches Err(BuildError::Transport(Cause::Text(words)))
                && words@ == decode_utf8(text@))
            &&& !valid_utf8(text@) ==> (result matches Err(BuildError::Transport(Cause::Rpc(error)))
                && error.kind == capnp::ErrorKind::TextContainsNonUtf8Data(utf8_fault(text@))
                && error.extra@.len() == 0)
        },
{
}

/// The link of a builder carries the limit that it was opened with, to the channels that are
/// built.
pub proof fn builder_hands_its_limit_on(
    max: usize,
    parts: (CapnpBuilder, Bootstrap, mpsc::Receiver<()>),
    link: &Arc<Link>,
    limit: usize,
)
    requires
        call_ensures(CapnpBuilder::open, (max,), parts),
        call_ensures(CapnpBuilder::link, (&parts.0,), link),
        call_ensures(Link::max_message_len, (&**link,), limit),
    ensures
        limit == max,
        **link == parts.0.shared_link(),
{
}

/// The task that owns a capability starts the operation of every command, stops exactly when
/// there will be no more, and otherwise goes on.
pub proof fn actor_starts_every_command<C>(event: ActorEvent<C>, step: ActorStep<C>)
    requires
        call_ensures(actor_step::<C>, (event,), step),
    ensures
        step is Stop <==> (event matches ActorEvent::Command(None)),
        step is Dispatch <==> (event matches ActorEvent::Command(Some(_))),
        event matches ActorEvent::Command(Some(command)) ==> step == ActorStep::Dispatch(command),
{
}

/// The first receive on a channel that was opened asks for a message.
pub proof fn opened_channel_asks_at_once(
    max: usize,
    parts: (CapnpChannel, Bootstrap, mpsc::Receiver<()>),
    channel: &mut CapnpChannel,
    halves: (CapnpSendHalf<'_>, CapnpRecvHalf<'_>),
    step: RecvStep,
)
    requires
        call_ensures(CapnpChannel::open, (max,), parts),
        *old(channel) == parts.0,
        call_ensures(CapnpChannel::split, (channel,), halves),
        call_ensures(receive_message, (&*old(halves.1.pending),), step),
    ensures
        step is Request,
        halves.0.max_message_len == max,
{
}

/// Nothing has to hold for a channel or a builder to be opened and used.
pub proof fn remote_channels_are_always_usable<C>(
    max: usize,
    message: Vec<u8>,
    channel: CapnpChannel,
    builder: CapnpBuilder,
    acceptor: CapnpAcceptor,
    pending: &mut PendingReceive,
    response: RecvResponse,
    queued: bool,
    sent: Option<Result<(), SendError>>,
    received: Option<Result<Vec<u8>, RecvError>>,
    built: Option<Result<C, BuildError>>,
    reply: Result<BuildReply<C>, capnp::Error>,
    link: Option<Arc<Link>>,
    event: ActorEvent<C>,
)
    ensures
        call_requires(CapnpChannel::open, (max,)),
        call_requires(CapnpBuilder::open, (max,)),
        call_requires(send_message, (max, message)),
        call_requires(CapnpChannel::start_send, (&channel, message)),
        call_requires(settle_send, (sent,)),
        call_requires(receive_message, (&*old(pending),)),
        call_requires(receive_requested, (pending, response, queued)),
        call_requires(settle_receive, (pending, received)),
        call_requires(CapnpBuilder::start_build, (&builder, &message)),
        call_requires(CapnpAcceptor::start_build, (&acceptor,)),
        call_requires(settle_build::<C>, (built,)),
        call_requires(dispatch_build::<C>, (reply, link)),
        call_requires(actor_step::<C>, (event,)),
{
}

} // verus!
