//! Remote channels and builders, with the test in the place of the RPC stream.

use std::future::Future;
use std::sync::Arc;
use std::time::Duration;

use fungi_transport::error::{
    rpc_build_error, rpc_recv_error, rpc_send_error, BuildError, Cause, RecvError, SendError,
};
use fungi_transport::rpc::client::{
    actor_step, dispatch_build, new_link, receive_message, receive_requested, send_message,
    settle_build, settle_receive, settle_send, ActorEvent, ActorStep, Bootstrap,
    CapnpAcceptor, CapnpBuilder, CapnpChannel, ChannelCommand, PendingReceive, RecvStep,
};
use fungi_transport::rpc::lifecycle::{next_stage, Stage, StageEvent, EXIT_GRACE_MILLIS};
use fungi_transport::rpc::server::{
    answer_recv, answer_send, build_requested, queue_send, recv_is_terminal, send_is_terminal,
    serve_channel, BuildStep, Inbound, Outbound, Pump,
};
use fungi_transport::rpc::wire::{
    decode_build_reply, decode_recv_reply, decode_send_reply, encode_build_result,
    encode_recv_result, encode_send_result, BuildReply, RecvReply, SendReply,
};
use tokio::sync::mpsc;

fn run<F: Future<Output = ()>>(test: F) {
    let runtime = tokio::runtime::Builder::new_current_thread()
        .enable_all()
        .start_paused(true)
        .build()
        .unwrap();
    runtime.block_on(async {
        tokio::time::timeout(Duration::from_secs(5), test).await.expect("the test must complete")
    });
}

async fn send(
    commands: &mpsc::Sender<ChannelCommand>,
    max: usize,
    message: Vec<u8>,
) -> Result<(), SendError> {
    let call = send_message(max, message)?;
    if commands.send(call.command).await.is_err() {
        return settle_send(None);
    }
    settle_send(call.response.await.ok())
}

async fn receive(
    commands: &mpsc::Sender<ChannelCommand>,
    pending: &mut PendingReceive,
) -> Result<Vec<u8>, RecvError> {
    if let RecvStep::Request(call) = receive_message(pending) {
        let queued = commands.send(call.command).await.is_ok();
        receive_requested(pending, call.response, queued)?;
    }
    let answer = pending.as_mut().unwrap().await.ok();
    settle_receive(pending, answer)
}

async fn build(builder: &CapnpBuilder, input: &Vec<u8>) -> Result<CapnpChannel, BuildError> {
    let call = builder.start_build(input);
    if call.commands.send(call.command).await.is_err() {
        return settle_build(None);
    }
    settle_build(call.response.await.ok())
}

#[test]
fn stopped_actors_report_closed_channels_and_unreachable_builders() {
    run(async {
        let (commands, receiver) = mpsc::channel(1);
        drop(receiver);
        assert!(matches!(send(&commands, 1024, vec![1]).await, Err(SendError::Closed)));
        let mut pending = None;
        assert!(matches!(receive(&commands, &mut pending).await, Err(RecvError::Closed)));
        assert!(pending.is_none());

        let (builder, receiver, _lifetime) = CapnpBuilder::open(1024);
        drop(receiver);
        assert!(matches!(build(&builder, &vec![1]).await, Err(BuildError::Unreachable)));
    });
}

#[test]
fn rpc_disconnects_and_protocol_failures_have_distinct_diagnostics() {
    assert!(matches!(
        rpc_send_error(capnp::Error::disconnected("gone".into())),
        SendError::Closed
    ));
    assert!(matches!(
        rpc_recv_error(capnp::Error::disconnected("gone".into())),
        RecvError::Closed
    ));
    assert!(matches!(
        rpc_build_error(capnp::Error::disconnected("gone".into())),
        BuildError::Unreachable
    ));
    let send = rpc_send_error(capnp::Error::failed("bad response".into()));
    let recv = rpc_recv_error(capnp::Error::failed("bad response".into()));
    let build = rpc_build_error(capnp::Error::failed("bad response".into()));
    for text in [send.text(), recv.text(), build.text()] {
        assert!(text.contains("bad response"));
        assert_eq!(text, "Failed: bad response");
    }
    assert!(send.source().is_some());
    assert!(recv.source().is_some());
    assert!(build.source().is_some());
}

#[test]
fn an_error_without_context_is_told_by_its_kind() {
    let error = rpc_send_error(capnp::Error::overloaded(String::new()));
    assert_eq!(error.text(), "Overloaded");
    let error = rpc_send_error(capnp::Error::from_kind(capnp::ErrorKind::Unimplemented));
    assert_eq!(error.text(), "Unimplemented");
}

#[test]
fn structured_failures_have_texts_and_no_source() {
    assert_eq!(SendError::Closed.text(), "channel closed");
    assert_eq!(RecvError::Closed.text(), "channel closed");
    assert_eq!(SendError::TooLarge { max: 8 }.text(), "message too large");
    assert_eq!(BuildError::Unreachable.text(), "peer unreachable");
    assert!(SendError::Closed.source().is_none());
    assert!(SendError::TooLarge { max: 8 }.source().is_none());
    assert!(RecvError::Closed.source().is_none());
    assert!(BuildError::Unreachable.source().is_none());
}

#[test]
fn unanswered_commands_report_closure() {
    run(async {
        let (mut channel, bootstrap, _lifetime) = CapnpChannel::open(1024);
        let Bootstrap::Channel(mut commands) = bootstrap else { panic!("a channel was opened") };
        let dropping = async {
            drop(commands.recv().await);
            drop(commands.recv().await);
        };
        let calling = async {
            let sent = send(channel.commands(), 1024, vec![1]).await;
            assert!(matches!(sent, Err(SendError::Closed)));
            let (_, receiver) = channel.split();
            let received = receive(receiver.commands, receiver.pending).await;
            assert!(matches!(received, Err(RecvError::Closed)));
            assert!(receiver.pending.is_none());
        };
        futures_util::future::join(dropping, calling).await;

        let (builder, bootstrap, _lifetime) = CapnpBuilder::open(1024);
        let Bootstrap::Builder(mut commands) = bootstrap else { panic!("a builder was opened") };
        let dropping = async {
            drop(commands.recv().await);
        };
        let token = vec![1];
        let (_, built) =
            futures_util::future::join(dropping, build(&builder, &token)).await;
        assert!(matches!(built, Err(BuildError::Unreachable)));
    });
}

#[test]
fn a_canceled_receive_keeps_its_response() {
    run(async {
        let (mut channel, bootstrap, _lifetime) = CapnpChannel::open(1024);
        let Bootstrap::Channel(mut commands) = bootstrap else { panic!("a channel was opened") };
        let (_, receiver) = channel.split();
        let attempt = receive(receiver.commands, receiver.pending);
        assert!(tokio::time::timeout(Duration::from_millis(5), attempt).await.is_err());
        assert!(receiver.pending.is_some());
        assert!(matches!(receive_message(receiver.pending), RecvStep::Await));

        let Some(ChannelCommand::Recv(answer)) = commands.recv().await else {
            panic!("one receive was requested")
        };
        assert!(answer.send(Ok(b"retained".to_vec())).is_ok());
        drop(receiver);
        let (_, receiver) = channel.split();
        let received = receive(receiver.commands, receiver.pending).await;
        assert_eq!(received.unwrap(), b"retained");
        assert!(receiver.pending.is_none());
        assert!(commands.try_recv().is_err());
    });
}

#[test]
fn commands_carry_the_message_and_bring_the_answer_back() {
    run(async {
        let (channel, bootstrap, _lifetime) = CapnpChannel::open(4);
        let Bootstrap::Channel(mut commands) = bootstrap else { panic!("a channel was opened") };
        assert_eq!(channel.commands().max_capacity(), 2);
        let answering = async {
            let Some(ChannelCommand::Send(message, answer)) = commands.recv().await else {
                panic!("a send was requested")
            };
            assert_eq!(message, b"four");
            assert!(answer.send(Err(SendError::TooLarge { max: 3 })).is_ok());
        };
        let sending = send(channel.commands(), 4, b"four".to_vec());
        let (_, sent) = futures_util::future::join(answering, sending).await;
        assert!(matches!(sent, Err(SendError::TooLarge { max: 3 })));
    });
}

#[test]
fn oversized_local_messages_are_refused_before_queuing() {
    let (mut channel, _bootstrap, _lifetime) = CapnpChannel::open(4);
    assert!(matches!(
        channel.start_send(vec![0; 5]),
        Err(SendError::TooLarge { max: 4 })
    ));
    assert!(channel.start_send(vec![0; 4]).is_ok());
    let (sender, _) = channel.split();
    assert!(matches!(
        sender.start_send(vec![0; 5]),
        Err(SendError::TooLarge { max: 4 })
    ));
    assert!(sender.start_send(vec![0; 4]).is_ok());
}

#[test]
fn a_builder_passes_its_token_on_and_an_acceptor_an_empty_one() {
    let (builder, _bootstrap, _lifetime) = CapnpBuilder::open(16);
    assert_eq!(builder.commands().max_capacity(), 1);
    assert_eq!(builder.link().max_message_len(), 16);
    assert_eq!(builder.start_build(&vec![1, 2, 3]).command.input, vec![1, 2, 3]);
    let acceptor = builder.into_acceptor();
    let call = acceptor.start_build();
    assert!(call.command.input.is_empty());
    assert!(call.commands.same_channel(acceptor.commands()));
    assert_eq!(acceptor.commands().max_capacity(), 1);
}

#[test]
fn a_connection_lives_as_long_as_its_last_handle() {
    run(async {
        let (builder, _bootstrap, mut lifetime) = CapnpBuilder::open(16);
        let link = Arc::downgrade(builder.link());
        let reply = Ok(BuildReply::Channel("capability"));
        let built = dispatch_build(reply, link.upgrade());
        let built = built.unwrap();
        assert_eq!(built.remote, "capability");
        drop(builder);
        assert!(tokio::time::timeout(Duration::from_secs(1), lifetime.recv()).await.is_err());
        drop(built);
        assert!(lifetime.recv().await.is_none());
        assert!(link.upgrade().is_none());
    });
}

#[test]
fn a_channel_that_nobody_waits_for_any_more_is_unreachable() {
    assert!(matches!(
        dispatch_build(Ok(BuildReply::Channel(7)), None),
        Err(BuildError::Unreachable)
    ));
    let (link, _lifetime) = new_link(8);
    assert!(matches!(
        dispatch_build::<u8>(Ok(BuildReply::Unreachable), Some(link.clone())),
        Err(BuildError::Unreachable)
    ));
    let failed: Result<BuildReply<u8>, capnp::Error> =
        Err(capnp::Error::failed("bad response".into()));
    assert!(matches!(
        dispatch_build(failed, Some(link)),
        Err(BuildError::Transport(Cause::Rpc(_)))
    ));
}

#[test]
fn an_actor_stops_when_every_handle_is_gone() {
    assert!(matches!(actor_step(ActorEvent::Command(Some(3))), ActorStep::Dispatch(3)));
    assert!(matches!(actor_step::<u8>(ActorEvent::Command(None)), ActorStep::Stop));
    assert!(matches!(actor_step::<u8>(ActorEvent::Finished), ActorStep::Wait));
}

#[test]
fn replies_become_outcomes() {
    assert!(decode_send_reply(Ok(SendReply::Accepted)).is_ok());
    assert!(matches!(
        decode_send_reply(Ok(SendReply::TooLarge(1 << 20))),
        Err(SendError::TooLarge { max: 1_048_576 })
    ));
    assert!(matches!(
        decode_send_reply(Ok(SendReply::TooLarge(u64::MAX))),
        Err(SendError::TooLarge { max: usize::MAX })
    ));
    assert!(matches!(decode_send_reply(Ok(SendReply::Closed)), Err(SendError::Closed)));
    assert!(matches!(
        decode_send_reply(Err(capnp::Error::disconnected("gone".into()))),
        Err(SendError::Closed)
    ));
    assert_eq!(decode_recv_reply(Ok(RecvReply::Message(vec![1, 2]))).unwrap(), vec![1, 2]);
    assert!(matches!(decode_recv_reply(Ok(RecvReply::Closed)), Err(RecvError::Closed)));
    assert_eq!(decode_build_reply(Ok(BuildReply::Channel(5))).unwrap(), 5);
    assert!(matches!(
        decode_build_reply::<u8>(Ok(BuildReply::Unreachable)),
        Err(BuildError::Unreachable)
    ));
}

#[test]
fn diagnostic_texts_cross_as_utf8() {
    let text = "kaputt: \u{fc}ber \u{2603}";
    let send = decode_send_reply(Ok(SendReply::Failed(text.as_bytes().to_vec()))).unwrap_err();
    let recv = decode_recv_reply(Ok(RecvReply::Failed(text.as_bytes().to_vec()))).unwrap_err();
    let build =
        decode_build_reply::<u8>(Ok(BuildReply::Failed(text.as_bytes().to_vec()))).unwrap_err();
    assert_eq!(send.text(), text);
    assert_eq!(recv.text(), text);
    assert_eq!(build.text(), text);

    let failed = || Cause::Text(text.to_owned());
    assert!(matches!(
        encode_send_result(Err(SendError::Transport(failed()))),
        SendReply::Failed(bytes) if bytes == text.as_bytes()
    ));
    assert!(matches!(
        encode_recv_result(Err(RecvError::Transport(failed()))),
        RecvReply::Failed(bytes) if bytes == text.as_bytes()
    ));
    assert!(matches!(
        encode_build_result::<u8>(Err(BuildError::Transport(failed()))),
        BuildReply::Failed(bytes) if bytes == text.as_bytes()
    ));
    let rpc = SendError::Transport(Cause::Rpc(capnp::Error::failed("bad".into())));
    assert!(matches!(
        encode_send_result(Err(rpc)),
        SendReply::Failed(bytes) if bytes == b"Failed: bad"
    ));
}

#[test]
fn texts_that_are_not_utf8_are_transport_failures() {
    let bytes = vec![b'a', 0xff, b'b'];
    let fault = std::str::from_utf8(&bytes).unwrap_err();
    let send = decode_send_reply(Ok(SendReply::Failed(bytes.clone()))).unwrap_err();
    assert!(matches!(
        send.source(),
        Some(Cause::Rpc(error))
            if error.kind == capnp::ErrorKind::TextContainsNonUtf8Data(fault)
                && error.extra.is_empty()
    ));
    let recv = decode_recv_reply(Ok(RecvReply::Failed(bytes.clone()))).unwrap_err();
    assert!(matches!(recv, RecvError::Transport(Cause::Rpc(_))));
    let build = decode_build_reply::<u8>(Ok(BuildReply::Failed(bytes))).unwrap_err();
    assert!(matches!(build, BuildError::Transport(Cause::Rpc(_))));
}

#[test]
fn outcomes_are_the_same_on_both_sides() {
    for max in [0, 8, usize::MAX] {
        let reply = encode_send_result(Err(SendError::TooLarge { max }));
        assert!(matches!(
            decode_send_reply(Ok(reply)),
            Err(SendError::TooLarge { max: crossed }) if crossed == max
        ));
    }
    assert!(decode_send_reply(Ok(encode_send_result(Ok(())))).is_ok());
    assert!(matches!(
        decode_send_reply(Ok(encode_send_result(Err(SendError::Closed)))),
        Err(SendError::Closed)
    ));
    let message = vec![0, 255, 10];
    assert_eq!(
        decode_recv_reply(Ok(encode_recv_result(Ok(message.clone())))).unwrap(),
        message
    );
    let reply = encode_recv_result(Err(RecvError::Transport(Cause::Text("broken".into()))));
    let crossed = decode_recv_reply(Ok(reply)).unwrap_err();
    assert_eq!(crossed.text(), "broken");
    assert_eq!(decode_build_reply(Ok(encode_build_result(Ok(3)))).unwrap(), 3);
    assert!(matches!(
        decode_build_reply(Ok(encode_build_result::<u8>(Err(BuildError::Unreachable)))),
        Err(BuildError::Unreachable)
    ));
}

#[test]
fn a_served_channel_is_driven_one_message_at_a_time() {
    run(async {
        let (mut requests, mut backend) = serve_channel();
        assert_eq!(requests.sends.max_capacity(), 1);
        assert_eq!(backend.receives.max_capacity(), 1);

        let (queued, response) = queue_send(vec![5]);
        assert!(requests.sends.send(queued).await.is_ok());
        let (message, answer) = backend.sends.recv().await.unwrap();
        assert_eq!(message, vec![5]);
        assert!(answer.send(Ok(())).is_ok());
        let outcome = response.await.ok();
        assert!(matches!(answer_send(outcome), SendReply::Accepted));

        assert!(backend.receives.send(Ok(vec![6])).await.is_ok());
        let outcome = requests.receives.recv().await;
        assert!(matches!(answer_recv(outcome), RecvReply::Message(message) if message == [6]));

        drop(backend);
        let (queued, _response) = queue_send(vec![7]);
        assert!(requests.sends.send(queued).await.is_err());
        assert!(matches!(answer_send(None), SendReply::Closed));
        let outcome = requests.receives.recv().await;
        assert!(matches!(answer_recv(outcome), RecvReply::Closed));
    });
}

#[test]
fn only_size_errors_leave_a_backend_in_use() {
    assert!(!send_is_terminal(&Ok(())));
    assert!(!send_is_terminal(&Err(SendError::TooLarge { max: 1 })));
    assert!(send_is_terminal(&Err(SendError::Closed)));
    assert!(send_is_terminal(&Err(SendError::Transport(Cause::Text("broken".into())))));
    assert!(!recv_is_terminal(&Ok(Vec::new())));
    assert!(recv_is_terminal(&Err(RecvError::Closed)));
    assert!(recv_is_terminal(&Err(RecvError::Transport(Cause::Text("broken".into())))));
}

#[test]
fn the_sending_direction_ends_with_its_callers_or_its_backend() {
    let mut outbound = Outbound::Idle;
    outbound.queued(true);
    assert_eq!(outbound, Outbound::Sending);
    outbound.sent(&Ok(()));
    assert_eq!(outbound, Outbound::Idle);
    outbound.queued(true);
    outbound.sent(&Err(SendError::TooLarge { max: 4 }));
    assert_eq!(outbound, Outbound::Idle);
    outbound.queued(true);
    outbound.sent(&Err(SendError::Closed));
    assert_eq!(outbound, Outbound::Ended);

    let mut outbound = Outbound::Idle;
    outbound.queued(false);
    assert_eq!(outbound, Outbound::Ended);
}

#[test]
fn the_receiving_direction_hands_over_its_last_outcome() {
    let mut inbound = Inbound::Receiving;
    inbound.received(&Ok(vec![1]));
    assert_eq!(inbound, Inbound::Handing { last: false });
    inbound.handed_over(true);
    assert_eq!(inbound, Inbound::Receiving);
    inbound.received(&Err(RecvError::Closed));
    assert_eq!(inbound, Inbound::Handing { last: true });
    inbound.handed_over(true);
    assert_eq!(inbound, Inbound::Ended);

    let mut inbound = Inbound::Receiving;
    inbound.received(&Ok(vec![1]));
    inbound.handed_over(false);
    assert_eq!(inbound, Inbound::Ended);
}

#[test]
fn whichever_direction_ends_first_ends_both() {
    let mut pump = Pump::new();
    assert!(!pump.over());
    pump.queued(true);
    pump.received(&Ok(vec![1]));
    pump.handed_over(true);
    pump.sent(&Err(SendError::TooLarge { max: 1 }));
    assert_eq!(pump, Pump::new());
    pump.queued(true);
    pump.sent(&Err(SendError::Closed));
    assert_eq!(pump.inbound, Inbound::Receiving);
    assert!(pump.over());

    let mut pump = Pump::new();
    pump.queued(true);
    pump.received(&Err(RecvError::Closed));
    assert!(!pump.over());
    pump.handed_over(true);
    assert_eq!(pump.outbound, Outbound::Sending);
    assert!(pump.over());
}

#[test]
fn a_spawned_process_gets_a_grace_period_and_is_reaped() {
    assert_eq!(EXIT_GRACE_MILLIS, 100);
    let leaving = next_stage(Stage::Serving { child: true }, StageEvent::Served);
    assert_eq!(leaving, Stage::Leaving);
    assert_eq!(next_stage(leaving, StageEvent::Exited), Stage::Done);
    let killing = next_stage(leaving, StageEvent::GraceOver);
    assert_eq!(killing, Stage::Killing);
    let reaping = next_stage(killing, StageEvent::KillSent);
    assert_eq!(reaping, Stage::Reaping);
    assert_eq!(next_stage(reaping, StageEvent::Reaped), Stage::Done);

    let serving = Stage::Serving { child: false };
    assert_eq!(next_stage(serving, StageEvent::GraceOver), serving);
    assert_eq!(next_stage(serving, StageEvent::Served), Stage::Done);
    assert_eq!(next_stage(Stage::Done, StageEvent::Served), Stage::Done);
}

fn crosses_threads<T: Send>() {}

#[test]
fn client_handles_cross_threads() {
    crosses_threads::<CapnpChannel>();
    crosses_threads::<CapnpBuilder>();
    crosses_threads::<CapnpAcceptor>();
    crosses_threads::<ChannelCommand>();
}

#[test]
fn a_refused_token_never_reaches_the_backend() {
    assert!(matches!(build_requested::<u8, u8>(Ok(3)), BuildStep::Call(3)));
    assert!(matches!(
        build_requested::<u8, u8>(Err(BuildError::Unreachable)),
        BuildStep::Answer(BuildReply::Unreachable)
    ));
    let refused = BuildError::Transport(Cause::Text("no such peer".into()));
    assert!(matches!(
        build_requested::<u8, u8>(Err(refused)),
        BuildStep::Answer(BuildReply::Failed(text)) if text == b"no such peer"
    ));
}

#[test]
fn served_receives_are_answered_in_order_and_then_closed() {
    run(async {
        let (mut requests, backend) = serve_channel();
        let outcomes = vec![
            Ok(vec![1]),
            Ok(vec![2]),
            Err(RecvError::Transport(Cause::Text("broken".into()))),
        ];
        let pumping = async {
            let mut inbound = Inbound::Receiving;
            for result in outcomes {
                assert_eq!(inbound, Inbound::Receiving);
                inbound.received(&result);
                inbound.handed_over(backend.receives.send(result).await.is_ok());
            }
            assert_eq!(inbound, Inbound::Ended);
            drop(backend);
        };
        let asking = async {
            let mut answers = Vec::new();
            for _ in 0..5 {
                answers.push(answer_recv(requests.receives.recv().await));
            }
            answers
        };
        let (_, answers) = futures_util::future::join(pumping, asking).await;
        assert!(matches!(&answers[0], RecvReply::Message(message) if message == &[1]));
        assert!(matches!(&answers[1], RecvReply::Message(message) if message == &[2]));
        assert!(matches!(&answers[2], RecvReply::Failed(text) if text == b"broken"));
        assert!(matches!(&answers[3], RecvReply::Closed));
        assert!(matches!(&answers[4], RecvReply::Closed));
    });
}
