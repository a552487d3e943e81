//! The calling side of an RPC stream: remote channels and remote builders.
//!
//! A remote channel talks to the task that owns its RPC capability by commands, and
//! each command carries the slot that its answer comes back in. The handles of one
//! connection share a [`Link`]; the connection lives as long as one of them does.

use std::sync::Arc;

use tokio::sync::{mpsc, oneshot};
use vstd::prelude::*;

use crate::error::{BuildError, RecvError, SendError};
use crate::rpc::wire::{decode_build_reply, BuildReply};

verus! {

use crate::error::SendFailure;
use crate::queue::{queue_of, slot_of};
use crate::rpc::wire::{arrived, build_answer};

/// The answering end of a slot for the outcome of a send.
pub type SendAnswer = oneshot::Sender<Result<(), SendError>>;

/// The asking end of a slot for the outcome of a send.
pub type SendResponse = oneshot::Receiver<Result<(), SendError>>;

/// The answering end of a slot for the outcome of a receive.
pub type RecvAnswer = oneshot::Sender<Result<Vec<u8>, RecvError>>;

/// The asking end of a slot for the outcome of a receive.
pub type RecvResponse = oneshot::Receiver<Result<Vec<u8>, RecvError>>;

/// The answering end of a slot for the outcome of a build.
pub type BuildAnswer = oneshot::Sender<Result<CapnpChannel, BuildError>>;

/// The asking end of a slot for the outcome of a build.
pub type BuildResponse = oneshot::Receiver<Result<CapnpChannel, BuildError>>;

/// What a remote channel asks of the task that owns its capability.
#[derive(Debug)]
pub enum ChannelCommand {
    /// Send this message, and answer here.
    Send(Vec<u8>, SendAnswer),
    /// Receive a message, and answer here.
    Recv(RecvAnswer),
}

/// What a remote builder asks of the task that owns its capability.
#[derive(Debug)]
pub struct BuildCommand {
    /// The token for the backend.
    pub input: Vec<u8>,
    /// Where to answer.
    pub reply: BuildAnswer,
}

/// What the handles of one connection share.
#[derive(Debug)]
pub struct Link {
    lifetime: mpsc::Sender<()>,
    max_message_len: usize,
}

impl Link {
    /// The handle whose going ends the connection.
    pub closed spec fn lifetime(self) -> mpsc::Sender<()> {
        self.lifetime
    }

    /// The local limit on outbound messages, in bytes.
    pub closed spec fn limit(self) -> nat {
        self.max_message_len as nat
    }

    /// The local limit on outbound messages, in bytes.
    pub fn max_message_len(&self) -> (max: usize)
        ensures
            max == self.limit(),
    {
        self.max_message_len
    }
}

/// Makes the link of a new connection, and the end that tells when the link is
/// gone.
pub fn new_link(max_message_len: usize) -> (ends: (Arc<Link>, mpsc::Receiver<()>))
    ensures
        ends.0.limit() == max_message_len,
        queue_of(1, ends.0.lifetime(), ends.1),
{
    let (sender, receiver) = mpsc::channel(1);
    (Arc::new(Link { lifetime: sender, max_message_len }), receiver)
}

/// A send that is ready to be queued.
#[derive(Debug)]
pub struct SendCall {
    /// The command to queue.
    pub command: ChannelCommand,
    /// Where the answer will arrive.
    pub response: SendResponse,
}

/// Whether a call asks for exactly this message to be sent, and is to be answered where it
/// waits.
pub open spec fn asks_to_send(call: SendCall, message: Seq<u8>) -> bool {
    &&& call.command matches ChannelCommand::Send(payload, answer)
    &&& payload@ == message
    &&& slot_of(answer, call.response)
}

/// Whether a send starts as told: a message over the limit is refused with the limit, any other
/// is asked for.
pub open spec fn send_starts(
    max: nat,
    message: Seq<u8>,
    call: Result<SendCall, SendError>,
) -> bool {
    match call {
        Ok(call) => message.len() <= max && asks_to_send(call, message),
        Err(error) => message.len() > max && error@ == SendFailure::TooLarge { max },
    }
}

/// Starts a send: refuses a message over the limit, and otherwise makes the
/// command that asks for it.
pub fn send_message(max: usize, message: Vec<u8>) -> (call: Result<SendCall, SendError>)
    ensures
        send_starts(max as nat, message@, call),
{
    if message.len() > max {
        return Err(SendError::TooLarge { max });
    }
    let (answer, response) = oneshot::channel();
    Ok(SendCall { command: ChannelCommand::Send(message, answer), response })
}

/// Finishes a send with its answer. There is none where the command could not be
/// queued, or where the slot was dropped unanswered.
pub fn settle_send(answer: Option<Result<(), SendError>>) -> (result: Result<(), SendError>)
    ensures
        result == match answer {
            Some(result) => result,
            None => Err::<(), SendError>(SendError::Closed),
        },
{
    match answer {
        Some(result) => result,
        None => Err(SendError::Closed),
    }
}

/// The response to a receive request that is still outstanding, if there is one.
pub type PendingReceive = Option<RecvResponse>;

/// A receive request that is ready to be queued.
#[derive(Debug)]
pub struct RecvCall {
    /// The command to queue.
    pub command: ChannelCommand,
    /// Where the answer will arrive.
    pub response: RecvResponse,
}

/// What a receive does next.
#[derive(Debug)]
pub enum RecvStep {
    /// Queue this request.
    Request(RecvCall),
    /// Wait for the response that is outstanding.
    Await,
}

/// Whether a receive starts as told: a request is made, and is to be answered where it waits,
/// exactly where no response is outstanding.
pub open spec fn receive_starts(pending: PendingReceive, step: RecvStep) -> bool {
    match step {
        RecvStep::Request(call) => {
            &&& pending is None
            &&& call.command matches ChannelCommand::Recv(answer)
            &&& slot_of(answer, call.response)
        },
        RecvStep::Await => pending is Some,
    }
}

/// Starts a receive: a request is made only where no response is outstanding.
pub fn receive_message(pending: &PendingReceive) -> (step: RecvStep)
    ensures
        receive_starts(*pending, step),
{
    if pending.is_none() {
        let (answer, response) = oneshot::channel();
        RecvStep::Request(RecvCall { command: ChannelCommand::Recv(answer), response })
    } else {
        RecvStep::Await
    }
}

/// The response that is outstanding after a request was to be queued: that of the request
/// where it was queued, and otherwise what was outstanding before.
pub open spec fn pending_after_request(
    before: PendingReceive,
    response: RecvResponse,
    queued: bool,
) -> PendingReceive {
    if queued {
        Some(response)
    } else {
        before
    }
}

/// Goes on with a receive after its request was to be queued. A request that was
/// queued leaves its response outstanding; where the queue is gone, the channel is
/// closed and nothing more is outstanding.
pub fn receive_requested(
    pending: &mut PendingReceive,
    response: RecvResponse,
    queued: bool,
) -> (result: Result<(), RecvError>)
    ensures
        *final(pending) == pending_after_request(*old(pending), response, queued),
        result == if queued {
            Ok::<(), RecvError>(())
        } else {
            Err(RecvError::Closed)
        },
{
    if queued {
        *pending = Some(response);
        Ok(())
    } else {
        Err(RecvError::Closed)
    }
}

/// Finishes a receive with the answer that the outstanding response brought, or
/// with none where its slot was dropped unanswered. Nothing is outstanding then.
pub fn settle_receive(
    pending: &mut PendingReceive,
    answer: Option<Result<Vec<u8>, RecvError>>,
) -> (result: Result<Vec<u8>, RecvError>)
    ensures
        result == match answer {
            Some(result) => result,
            None => Err::<Vec<u8>, RecvError>(RecvError::Closed),
        },
        *final(pending) is None,
{
    *pending = None;
    match answer {
        Some(result) => result,
        None => Err(RecvError::Closed),
    }
}

/// One remote byte channel. Receiving state survives canceled operation futures.
#[derive(Debug)]
pub struct CapnpChannel {
    commands: mpsc::Sender<ChannelCommand>,
    pending: PendingReceive,
    link: Arc<Link>,
}

impl CapnpChannel {
    /// The handle that this channel queues commands with.
    pub closed spec fn commands_handle(self) -> mpsc::Sender<ChannelCommand> {
        self.commands
    }

    /// The response that is outstanding, if there is one.
    pub closed spec fn pending(self) -> PendingReceive {
        self.pending
    }

    /// The link that this channel keeps alive.
    pub closed spec fn link(self) -> Link {
        *self.link
    }

    /// Makes a channel on the given link, and the end that its commands arrive at.
    pub fn attach(link: Arc<Link>) -> (ends: (CapnpChannel, mpsc::Receiver<ChannelCommand>))
        ensures
            queue_of(2, ends.0.commands_handle(), ends.1),
            ends.0.pending() is None,
            ends.0.link() == *link,
    {
        let (commands, receiver) = mpsc::channel(2);
        (CapnpChannel { commands, pending: None, link }, receiver)
    }

    /// Makes a channel on a link of its own, what the client of the connection
    /// starts from, and the end that tells when the link is gone.
    pub fn open(max_message_len: usize) -> (parts: (
        CapnpChannel,
        Bootstrap,
        mpsc::Receiver<()>,
    ))
        ensures
            parts.1 matches Bootstrap::Channel(receiver) && queue_of(
                2,
                parts.0.commands_handle(),
                receiver,
            ),
            parts.0.pending() is None,
            parts.0.link().limit() == max_message_len,
            queue_of(1, parts.0.link().lifetime(), parts.2),
    {
        let (link, lifetime) = new_link(max_message_len);
        let (channel, receiver) = CapnpChannel::attach(link);
        (channel, Bootstrap::Channel(receiver), lifetime)
    }

    /// The handle to queue commands with.
    pub fn commands(&self) -> (commands: &mpsc::Sender<ChannelCommand>)
        ensures
            *commands == self.commands_handle(),
    {
        &self.commands
    }

    /// Starts a send.
    pub fn start_send(&self, message: Vec<u8>) -> (call: Result<SendCall, SendError>)
        ensures
            send_starts(self.link().limit(), message@, call),
    {
        send_message(self.link.max_message_len(), message)
    }

    /// Borrows the two directions of this channel.
    pub fn split(&mut self) -> (halves: (CapnpSendHalf<'_>, CapnpRecvHalf<'_>))
        ensures
            *halves.0.commands == old(self).commands_handle(),
            *halves.1.commands == old(self).commands_handle(),
            halves.0.max_message_len == old(self).link().limit(),
            *halves.1.pending == old(self).pending(),
            final(self).pending() == *final(halves.1.pending),
            final(self).commands_handle() == old(self).commands_handle(),
            final(self).link() == old(self).link(),
    {
        (
            CapnpSendHalf {
                commands: &self.commands,
                max_message_len: self.link.max_message_len(),
            },
            CapnpRecvHalf { commands: &self.commands, pending: &mut self.pending },
        )
    }
}

/// Borrowed sending direction of a remote channel.
#[derive(Debug)]
pub struct CapnpSendHalf<'a> {
    pub commands: &'a mpsc::Sender<ChannelCommand>,
    pub max_message_len: usize,
}

/// Borrowed receiving direction of a remote channel.
#[derive(Debug)]
pub struct CapnpRecvHalf<'a> {
    pub commands: &'a mpsc::Sender<ChannelCommand>,
    pub pending: &'a mut PendingReceive,
}

impl<'a> CapnpSendHalf<'a> {
    /// Starts a send.
    pub fn start_send(&self, message: Vec<u8>) -> (call: Result<SendCall, SendError>)
        ensures
            send_starts(self.max_message_len as nat, message@, call),
    {
        send_message(self.max_message_len, message)
    }
}

/// What the client of a connection starts from: which capability the other side
/// offers, and where the commands for it arrive.
#[derive(Debug)]
pub enum Bootstrap {
    /// The other side serves one channel.
    Channel(mpsc::Receiver<ChannelCommand>),
    /// The other side serves a builder.
    Builder(mpsc::Receiver<BuildCommand>),
}

/// Remote builder accepting opaque byte tokens interpreted by the backend.
#[derive(Debug)]
pub struct CapnpBuilder {
    commands: mpsc::Sender<BuildCommand>,
    link: Arc<Link>,
}

/// A build that is ready to be queued.
#[derive(Debug)]
pub struct BuildCall<'a> {
    /// Where to queue the command.
    pub commands: &'a mpsc::Sender<BuildCommand>,
    /// The command to queue.
    pub command: BuildCommand,
    /// Where the answer will arrive.
    pub response: BuildResponse,
}

/// Whether a call asks, through this handle, for a channel with exactly this token, and is to
/// be answered where it waits.
pub open spec fn asks_to_build(
    call: BuildCall<'_>,
    commands: mpsc::Sender<BuildCommand>,
    token: Seq<u8>,
) -> bool {
    &&& *call.commands == commands
    &&& call.command.input@ == token
    &&& slot_of(call.command.reply, call.response)
}

impl CapnpBuilder {
    /// The handle that this builder queues commands with.
    pub closed spec fn commands_handle(self) -> mpsc::Sender<BuildCommand> {
        self.commands
    }

    /// The link that this builder keeps alive.
    pub closed spec fn shared_link(self) -> Link {
        *self.link
    }

    /// Whether a call is what this builder makes of a token.
    pub open spec fn calls(self, token: Seq<u8>, call: BuildCall<'_>) -> bool {
        asks_to_build(call, self.commands_handle(), token)
    }

    /// Makes a builder on a link of its own, what the client of the connection starts
    /// from, and the end that tells when the link is gone.
    pub fn open(max_message_len: usize) -> (parts: (
        CapnpBuilder,
        Bootstrap,
        mpsc::Receiver<()>,
    ))
        ensures
            parts.1 matches Bootstrap::Builder(receiver) && queue_of(
                1,
                parts.0.commands_handle(),
                receiver,
            ),
            parts.0.shared_link().limit() == max_message_len,
            queue_of(1, parts.0.shared_link().lifetime(), parts.2),
    {
        let (link, lifetime) = new_link(max_message_len);
        let (commands, receiver) = mpsc::channel(1);
        (CapnpBuilder { commands, link }, Bootstrap::Builder(receiver), lifetime)
    }

    /// The handle to queue commands with.
    pub fn commands(&self) -> (commands: &mpsc::Sender<BuildCommand>)
        ensures
            *commands == self.commands_handle(),
    {
        &self.commands
    }

    /// The link that built channels are to share.
    pub fn link(&self) -> (link: &Arc<Link>)
        ensures
            **link == self.shared_link(),
    {
        &self.link
    }

    /// Starts a build: makes the command that passes the token on.
    pub fn start_build(&self, input: &Vec<u8>) -> (call: BuildCall<'_>)
        ensures
            self.calls(input@, call),
    {
        let (reply, response) = oneshot::channel();
        let input: Vec<u8> = vstd::slice::slice_to_vec(input.as_slice());
        BuildCall { commands: &self.commands, command: BuildCommand { input, reply }, response }
    }

    /// Treat this remote builder as an inbound builder with unit input.
    pub fn into_acceptor(self) -> (acceptor: CapnpAcceptor)
        ensures
            acceptor.builder() == self,
    {
        CapnpAcceptor(self)
    }
}

/// Finishes a build with its answer. There is none where the command could not be
/// queued, or where the slot was dropped unanswered; the other side is unreachable
/// then.
pub fn settle_build<C>(answer: Option<Result<C, BuildError>>) -> (result: Result<C, BuildError>)
    ensures
        result == match answer {
            Some(result) => result,
            None => Err::<C, BuildError>(BuildError::Unreachable),
        },
{
    match answer {
        Some(result) => result,
        None => Err(BuildError::Unreachable),
    }
}

/// A channel that was built on the other side.
#[derive(Debug)]
pub struct RemoteChannel<C> {
    /// The capability of the channel.
    pub remote: C,
    /// The local handle.
    pub channel: CapnpChannel,
    /// Where the commands of the local handle arrive.
    pub commands: mpsc::Receiver<ChannelCommand>,
}

/// Turns the reply to a build request into a local handle on the channel that was
/// built. `link` is the link of the connection, if one of its handles is still there:
/// with no handle left, the other side counts as unreachable.
pub fn dispatch_build<C>(
    reply: Result<BuildReply<C>, capnp::Error>,
    link: Option<Arc<Link>>,
) -> (result: Result<RemoteChannel<C>, BuildError>)
    ensures
        match build_answer(arrived(reply)) {
            Err(failure) => result matches Err(error) && error@ == failure,
            Ok(remote) => match link {
                None => result == Err::<RemoteChannel<C>, BuildError>(BuildError::Unreachable),
                Some(link) => result matches Ok(built) && {
                    &&& built.remote == remote
                    &&& queue_of(2, built.channel.commands_handle(), built.commands)
                    &&& built.channel.pending() is None
                    &&& built.channel.link() == *link
                },
            },
        },
{
    match decode_build_reply(reply) {
        Err(error) => Err(error),
        Ok(remote) => match link {
            None => Err(BuildError::Unreachable),
            Some(link) => {
                let (channel, commands) = CapnpChannel::attach(link);
                Ok(RemoteChannel { remote, channel, commands })
            },
        },
    }
}

/// What reaches the task that owns a capability.
#[derive(Debug)]
pub enum ActorEvent<C> {
    /// The next command, or nothing where every handle is gone.
    Command(Option<C>),
    /// One of the operations under way is over.
    Finished,
}

/// What the task that owns a capability does next.
#[derive(Debug)]
pub enum ActorStep<C> {
    /// Start the operation that this command asks for, beside those under way.
    Dispatch(C),
    /// Go on waiting.
    Wait,
    /// Drop the operations under way, and the capability.
    Stop,
}

/// Decides what the task that owns a capability does on an event: it starts every
/// command at once, and stops exactly when every handle is gone.
pub fn actor_step<C>(event: ActorEvent<C>) -> (step: ActorStep<C>)
    ensures
        step == match event {
            ActorEvent::Command(Some(command)) => ActorStep::Dispatch(command),
            ActorEvent::Command(None) => ActorStep::Stop,
            ActorEvent::Finished => ActorStep::Wait,
        },
{
    match event {
        ActorEvent::Command(Some(command)) => ActorStep::Dispatch(command),
        ActorEvent::Command(None) => ActorStep::Stop,
        ActorEvent::Finished => ActorStep::Wait,
    }
}

/// Inbound remote builder. Sends an empty token for each acceptance request.
#[derive(Debug)]
pub struct CapnpAcceptor(CapnpBuilder);

impl CapnpAcceptor {
    /// Whether a call is what this acceptor makes of a request.
    pub open spec fn calls(self, call: BuildCall<'_>) -> bool {
        asks_to_build(call, self.builder().commands_handle(), Seq::empty())
    }

    /// The builder behind this acceptor.
    pub closed spec fn builder(self) -> CapnpBuilder {
        self.0
    }

    /// The handle to queue commands with.
    pub fn commands(&self) -> (commands: &mpsc::Sender<BuildCommand>)
        ensures
            *commands == self.builder().commands_handle(),
    {
        self.0.commands()
    }

    /// Starts an acceptance: makes the command that passes the empty token on.
    pub fn start_build(&self) -> (call: BuildCall<'_>)
        ensures
            self.calls(call),
    {
        self.0.start_build(&Vec::new())
    }
}

} // verus!
