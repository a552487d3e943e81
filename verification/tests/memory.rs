//! Consumer workflows and conformance checks against the in-memory transport.

use std::cell::RefCell;
use std::time::Duration;

use fungi_transport::error::{BuildError, RecvError, SendError};
use fungi_transport::mem::{
    best_effort_gate, best_effort_result, duplex, finish_recv, finish_send, network, prepare,
    take_one, try_send_best_effort, Delivery, Enqueued, MemAddr, MemChannel, MemChannelBuilder,
    MemConfig, MemListener, MemRecvHalf, MemSendHalf, SendStep,
};
use fungi_transport::queue::outlet;
use fungi_transport::testkit::checks::{
    build_use_drop_rebuild, closed_after_peer_drop, mutual_bursts_converge, recv_is_cancel_safe,
    roundtrip_both_directions, too_large, too_large_is_recoverable, BurstReceiver, BurstSender,
    BURST_MILLIS,
};
use fungi_transport::testkit::{Action, Check, Event, Side};
use tokio::sync::mpsc;

async fn enqueue(
    sender: &mpsc::Sender<Vec<u8>>,
    message: Vec<u8>,
    timeout: Option<Duration>,
) -> Enqueued {
    let sent = match timeout {
        Some(timeout) => match tokio::time::timeout(timeout, sender.send(message)).await {
            Ok(sent) => sent,
            Err(_) => return Enqueued::TimedOut,
        },
        None => sender.send(message).await,
    };
    match sent {
        Ok(()) => Enqueued::Accepted,
        Err(_) => Enqueued::Closed,
    }
}

trait Sends {
    async fn send(&mut self, message: Vec<u8>) -> Result<(), SendError>;
}

trait Receives {
    async fn recv(&mut self) -> Result<Vec<u8>, RecvError>;
}

impl Sends for MemChannel {
    async fn send(&mut self, message: Vec<u8>) -> Result<(), SendError> {
        let mut step = self.start_send(message);
        loop {
            match step {
                SendStep::Finished(result) => return result,
                SendStep::Sleep { latency, message } => {
                    tokio::time::sleep(latency).await;
                    step = self.resume_send(message);
                }
                SendStep::Enqueue { message, timeout } => {
                    return finish_send(enqueue(self.sender(), message, timeout).await);
                }
            }
        }
    }
}

impl Receives for MemChannel {
    async fn recv(&mut self) -> Result<Vec<u8>, RecvError> {
        finish_recv(self.receiver().recv().await)
    }
}

impl Sends for MemSendHalf<'_> {
    async fn send(&mut self, message: Vec<u8>) -> Result<(), SendError> {
        let mut step = self.start_send(message);
        loop {
            match step {
                SendStep::Finished(result) => return result,
                SendStep::Sleep { latency, message } => {
                    tokio::time::sleep(latency).await;
                    step = self.resume_send(message);
                }
                SendStep::Enqueue { message, timeout } => {
                    return finish_send(enqueue(self.sender(), message, timeout).await);
                }
            }
        }
    }
}

impl Receives for MemRecvHalf<'_> {
    async fn recv(&mut self) -> Result<Vec<u8>, RecvError> {
        finish_recv(self.receiver().recv().await)
    }
}

async fn connect(builder: &mut MemChannelBuilder) -> Result<MemChannel, BuildError> {
    let (local, remote) = builder.start_build(&MemAddr);
    let handed_over = builder.incoming().send(remote).await.is_ok();
    MemChannelBuilder::finish_build(local, handed_over)
}

async fn accept(listener: &mut MemListener) -> Result<MemChannel, BuildError> {
    MemListener::finish_build(listener.incoming().recv().await)
}

/// A channel with a limit, made for the checks alone.
struct Fixture {
    queue: mpsc::Sender<Vec<u8>>,
    max: usize,
    receiver: mpsc::Receiver<Vec<u8>>,
}

fn pair(max: usize) -> (Fixture, Fixture) {
    let (left, incoming_right) = mpsc::channel(1);
    let (right, incoming_left) = mpsc::channel(1);
    (
        Fixture { queue: left, max, receiver: incoming_left },
        Fixture { queue: right, max, receiver: incoming_right },
    )
}

impl Sends for Fixture {
    async fn send(&mut self, message: Vec<u8>) -> Result<(), SendError> {
        if message.len() > self.max {
            return Err(SendError::TooLarge { max: self.max });
        }
        self.queue.send(message).await.map_err(|_| SendError::Closed)
    }
}

impl Receives for Fixture {
    async fn recv(&mut self) -> Result<Vec<u8>, RecvError> {
        self.receiver.recv().await.ok_or(RecvError::Closed)
    }
}

trait Builds<C> {
    async fn build(&mut self) -> Option<(C, C)>;
}

fn both<C>(ends: (C, C)) -> (Option<C>, Option<C>) {
    (Some(ends.0), Some(ends.1))
}

struct NoNetwork;

impl<C> Builds<C> for NoNetwork {
    async fn build(&mut self) -> Option<(C, C)> {
        None
    }
}

impl Builds<MemChannel> for (MemChannelBuilder, MemListener) {
    async fn build(&mut self) -> Option<(MemChannel, MemChannel)> {
        let (client, server) =
            futures_util::future::join(connect(&mut self.0), accept(&mut self.1)).await;
        Some((client.ok()?, server.ok()?))
    }
}

impl Builds<Fixture> for (mpsc::Sender<Fixture>, mpsc::Receiver<Fixture>) {
    async fn build(&mut self) -> Option<(Fixture, Fixture)> {
        let (client, server) = pair(1024);
        self.0.send(server).await.ok()?;
        Some((client, self.1.recv().await?))
    }
}

async fn run<C: Sends + Receives, N: Builds<C>>(
    mut check: Check,
    endpoints: (Option<C>, Option<C>),
    mut network: N,
) -> bool {
    let (mut left, mut right) = endpoints;
    let mut retired = Vec::new();
    loop {
        let event = match check.next() {
            Action::Build => {
                let built = network.build().await;
                let event = Event::Built(built.is_some());
                retired.push((left.take(), right.take()));
                if let Some((client, server)) = built {
                    left = Some(client);
                    right = Some(server);
                }
                event
            }
            Action::Send { side, message } => {
                let endpoint = match side {
                    Side::Left => left.as_mut(),
                    Side::Right => right.as_mut(),
                };
                Event::Sent(endpoint.unwrap().send(message).await)
            }
            Action::Receive { side, within_millis } => {
                let endpoint = match side {
                    Side::Left => left.as_mut(),
                    Side::Right => right.as_mut(),
                };
                let receive = endpoint.unwrap().recv();
                match within_millis {
                    None => Event::Received(receive.await),
                    Some(millis) => {
                        match tokio::time::timeout(Duration::from_millis(millis), receive).await {
                            Ok(result) => Event::Received(result),
                            Err(_) => Event::Pending,
                        }
                    }
                }
            }
            Action::Drop { side } => {
                match side {
                    Side::Left => left = None,
                    Side::Right => right = None,
                }
                Event::Dropped
            }
            Action::Passed => return true,
            Action::Failed => return false,
        };
        check.observe(event);
    }
}

async fn drive_sending<S: Sends>(half: &mut S, mut burst: BurstSender) -> bool {
    while let Some(message) = burst.next_message() {
        let result = half.send(message).await;
        burst.sent(&result);
    }
    !burst.failed()
}

async fn drive_receiving<R: Receives>(half: &mut R, mut burst: BurstReceiver) -> bool {
    while burst.expects_message() {
        let result = half.recv().await;
        burst.received(&result);
    }
    !burst.failed()
}

async fn bursts(mut left: MemChannel, mut right: MemChannel, burst: usize) -> bool {
    let (left_burst, right_burst) = mutual_bursts_converge(burst);
    let (mut left_sender, mut left_receiver) = left.split();
    let (mut right_sender, mut right_receiver) = right.split();
    let exchange = futures_util::future::join(
        futures_util::future::join(
            drive_sending(&mut left_sender, left_burst.0),
            drive_receiving(&mut left_receiver, left_burst.1),
        ),
        futures_util::future::join(
            drive_sending(&mut right_sender, right_burst.0),
            drive_receiving(&mut right_receiver, right_burst.1),
        ),
    );
    match tokio::time::timeout(Duration::from_millis(BURST_MILLIS), exchange).await {
        Ok(passed) => passed == ((true, true), (true, true)),
        Err(_) => false,
    }
}

fn within_deadline<F: std::future::Future<Output = ()>>(workflow: F) {
    let runtime = tokio::runtime::Builder::new_current_thread()
        .enable_all()
        .start_paused(true)
        .build()
        .unwrap();
    runtime.block_on(async {
        tokio::time::timeout(Duration::from_secs(5), workflow)
            .await
            .expect("in-memory workflow must complete before the deadline")
    });
}

#[test]
fn best_effort_attempt_reports_a_closed_queue() {
    let (mut sender, receiver) = outlet(1);
    drop(receiver);
    assert!(matches!(
        try_send_best_effort(&mut sender, vec![1]),
        Err(SendError::Closed)
    ));
}

#[test]
fn passes_roundtrip_conformance() {
    within_deadline(async {
        let ends = duplex(MemConfig::default());
        assert!(run(roundtrip_both_directions(), both(ends), NoNetwork).await);
    });
}

#[test]
fn reports_peer_closure() {
    within_deadline(async {
        let ends = duplex(MemConfig::default());
        assert!(run(closed_after_peer_drop(), both(ends), NoNetwork).await);
    });
}

#[test]
fn receive_is_cancel_safe() {
    within_deadline(async {
        let ends = duplex(MemConfig::default());
        assert!(run(recv_is_cancel_safe(), both(ends), NoNetwork).await);
    });
}

#[test]
fn rejects_oversized_messages_and_recovers() {
    within_deadline(async {
        let ends = duplex(MemConfig {
            capacity: Some(2),
            max_message_len: Some(8),
            ..MemConfig::default()
        });
        assert!(run(too_large_is_recoverable(8), both(ends), NoNetwork).await);

        let ends = duplex(MemConfig { max_message_len: Some(8), ..MemConfig::default() });
        assert!(run(too_large(8), both(ends), NoNetwork).await);
    });
}

#[test]
fn oversized_recovery_fits_small_limits() {
    within_deadline(async {
        for max in [0, 1, 5] {
            let ends = duplex(MemConfig { max_message_len: Some(max), ..MemConfig::default() });
            assert!(run(too_large_is_recoverable(max), both(ends), NoNetwork).await);
        }
    });
}

#[test]
fn confirmed_delivery_ignores_injected_loss() {
    within_deadline(async {
        let (mut left, mut right) = duplex(MemConfig::default());
        left.drop_next(2);
        left.send(vec![1]).await.unwrap();
        assert_eq!(right.recv().await.unwrap(), vec![1]);
        let (mut sender, _) = left.split();
        sender.send(vec![2]).await.unwrap();
        assert_eq!(right.recv().await.unwrap(), vec![2]);
    });
}

#[test]
fn best_effort_reports_closure_even_with_injected_loss() {
    within_deadline(async {
        for loss in [0, 1] {
            for split in [false, true] {
                let (mut left, right) = duplex(MemConfig {
                    delivery: Delivery::BestEffort,
                    ..MemConfig::default()
                });
                left.drop_next(loss);
                drop(right);
                let result = if split {
                    let (mut sender, _) = left.split();
                    sender.send(vec![1]).await
                } else {
                    left.send(vec![1]).await
                };
                assert!(matches!(result, Err(SendError::Closed)));
            }
        }
    });
}

#[test]
fn accepts_a_message_at_the_exact_size_limit() {
    within_deadline(async {
        let (mut left, mut right) = duplex(MemConfig {
            max_message_len: Some(8),
            ..MemConfig::default()
        });
        let message = [0_u8; 8];

        left.send(message.to_vec()).await.unwrap();
        let received = tokio::time::timeout(Duration::from_millis(100), right.recv())
            .await
            .expect("message should be delivered before the deadline")
            .unwrap();
        assert_eq!(received, message);
    });
}

#[test]
fn reconnects_after_peer_loss() {
    within_deadline(async {
        let ends = network(MemConfig::default());
        assert!(run(build_use_drop_rebuild(), (None, None), ends).await);
    });
}

#[test]
fn simultaneous_bursts_make_progress() {
    within_deadline(async {
        let (left, right) = duplex(MemConfig { capacity: Some(1), ..MemConfig::default() });
        assert!(bursts(left, right, 16).await);
    });
}

#[test]
fn zero_capacity_produces_a_usable_channel() {
    within_deadline(async {
        let (mut left, mut right) = duplex(MemConfig { capacity: Some(0), ..MemConfig::default() });
        left.send(b"message".to_vec()).await.unwrap();
        assert_eq!(right.recv().await.unwrap(), b"message");
    });
}

#[test]
fn mock_is_fifo_per_direction() {
    within_deadline(async {
        let (mut left, mut right) = duplex(MemConfig { capacity: Some(2), ..MemConfig::default() });
        left.send(b"first".to_vec()).await.unwrap();
        left.send(b"second".to_vec()).await.unwrap();
        assert_eq!(right.recv().await.unwrap(), b"first");
        assert_eq!(right.recv().await.unwrap(), b"second");
    });
}

#[test]
fn empty_message_roundtrips() {
    within_deadline(async {
        let (mut left, mut right) = duplex(MemConfig::default());
        left.send(b"".to_vec()).await.unwrap();
        assert_eq!(right.recv().await.unwrap(), b"");
    });
}

#[test]
fn confirmed_send_times_out_when_the_queue_is_full() {
    within_deadline(async {
        let (mut left, _right) = duplex(MemConfig {
            capacity: Some(1),
            send_timeout: Some(Duration::from_millis(5)),
            ..MemConfig::default()
        });
        left.send(b"first".to_vec()).await.unwrap();
        let error = left.send(b"second".to_vec()).await.unwrap_err();
        assert!(matches!(error, SendError::Transport(_)));
        assert_eq!(error.text(), "send timed out");
    });
}

#[test]
fn best_effort_silently_loses_when_the_queue_is_full() {
    within_deadline(async {
        let (mut left, mut right) = duplex(MemConfig {
            capacity: Some(1),
            delivery: Delivery::BestEffort,
            ..MemConfig::default()
        });
        left.send(b"kept".to_vec()).await.unwrap();
        left.send(b"lost".to_vec()).await.unwrap();
        assert_eq!(right.recv().await.unwrap(), b"kept");
    });
}

#[test]
fn injected_loss_and_failure_are_observable() {
    within_deadline(async {
        let (mut left, mut right) = duplex(MemConfig {
            capacity: Some(2),
            delivery: Delivery::BestEffort,
            ..MemConfig::default()
        });
        left.drop_next(1);
        left.send(b"lost".to_vec()).await.unwrap();
        left.send(b"kept".to_vec()).await.unwrap();
        assert_eq!(right.recv().await.unwrap(), b"kept");

        left.fail_next(1);
        let error = left.send(b"failed".to_vec()).await.unwrap_err();
        assert!(matches!(error, SendError::Transport(_)));
        assert_eq!(error.text(), "injected failure");
        left.send(b"next".to_vec()).await.unwrap();
        assert_eq!(right.recv().await.unwrap(), b"next");
    });
}

#[test]
fn latency_uses_runtime_time() {
    within_deadline(async {
        let (mut left, mut right) = duplex(MemConfig {
            latency: Some(Duration::from_secs(1)),
            ..MemConfig::default()
        });
        let started = tokio::time::Instant::now();
        left.send(b"message".to_vec()).await.unwrap();
        assert!(started.elapsed() >= Duration::from_secs(1));
        assert_eq!(right.recv().await.unwrap(), b"message");
    });
}

#[test]
fn dead_listener_and_connector_are_reported() {
    within_deadline(async {
        let (mut connector, listener) = network(MemConfig::default());
        drop(listener);
        assert!(matches!(connect(&mut connector).await, Err(BuildError::Unreachable)));

        let (connector, mut listener) = network(MemConfig::default());
        drop(connector);
        assert!(matches!(accept(&mut listener).await, Err(BuildError::Unreachable)));
    });
}

#[test]
fn a_cloned_builder_reaches_the_same_listener() {
    within_deadline(async {
        let (connector, mut listener) = network(MemConfig::default());
        let mut other = connector.clone();
        drop(connector);
        let mut client = connect(&mut other).await.unwrap();
        let mut server = accept(&mut listener).await.unwrap();
        client.send(b"hello".to_vec()).await.unwrap();
        assert_eq!(server.recv().await.unwrap(), b"hello");
    });
}

#[test]
fn helpers_check_delivery_limits_cancellation_and_reconnection() {
    within_deadline(async {
        assert!(run(roundtrip_both_directions(), both(pair(1024)), NoNetwork).await);
        assert!(run(closed_after_peer_drop(), both(pair(1024)), NoNetwork).await);
        assert!(run(recv_is_cancel_safe(), both(pair(1024)), NoNetwork).await);
        let (left, _) = pair(8);
        assert!(run(too_large(8), (Some(left), None), NoNetwork).await);
        assert!(run(too_large_is_recoverable(8), both(pair(8)), NoNetwork).await);

        let (mut left, mut right) = pair(1024);
        let (left_burst, right_burst) = mutual_bursts_converge(16);
        let Fixture { queue, max: _, receiver } = &mut left;
        let Fixture { queue: other_queue, max: _, receiver: other_receiver } = &mut right;
        let send = |queue: mpsc::Sender<Vec<u8>>, burst: BurstSender| async move {
            let mut burst = burst;
            while let Some(message) = burst.next_message() {
                burst.sent(&queue.send(message).await.map_err(|_| SendError::Closed));
            }
            !burst.failed()
        };
        let log = RefCell::new(Vec::new());
        let receive = async {
            let mut burst = left_burst.1;
            while burst.expects_message() {
                let result = receiver.recv().await.ok_or(RecvError::Closed);
                burst.received(&result);
                log.borrow_mut().push(result.unwrap());
            }
        };
        let other_receive = async {
            let mut burst = right_burst.1;
            while burst.expects_message() {
                burst.received(&other_receiver.recv().await.ok_or(RecvError::Closed));
            }
        };
        let sends = futures_util::future::join(
            send(queue.clone(), left_burst.0),
            send(other_queue.clone(), right_burst.0),
        );
        let receives = futures_util::future::join(receive, other_receive);
        let (sent, _) = futures_util::future::join(sends, receives).await;
        assert_eq!(sent, (true, true));
        let expected: Vec<Vec<u8>> = (0..16).map(|index| vec![b'r', index]).collect();
        assert_eq!(*log.borrow(), expected);

        assert!(run(build_use_drop_rebuild(), (None, None), mpsc::channel::<Fixture>(1)).await);
    });
}

#[test]
fn construction_does_not_require_an_online_peer() {
    within_deadline(async {
        let (mut channel, peer) = duplex(MemConfig::default());
        drop(peer);
        assert!(channel.send(b"message".to_vec()).await.is_err());
    });
}

#[test]
fn sequential_ping_pong() {
    within_deadline(async {
        let (mut left, mut right) = duplex(MemConfig::default());

        for value in 0..3 {
            left.send([value].to_vec()).await.unwrap();
            assert_eq!(right.recv().await.unwrap(), [value]);

            right.send([value, value].to_vec()).await.unwrap();
            assert_eq!(left.recv().await.unwrap(), [value, value]);
        }
    });
}

async fn exchange(channel: &mut MemChannel, tag: u8) -> Vec<Vec<u8>> {
    let (mut sender, mut receiver) = channel.split();
    let sending = async move {
        for value in 0..32 {
            sender.send([tag, value].to_vec()).await.unwrap();
        }
    };
    let receiving = async move {
        let mut messages = Vec::with_capacity(32);
        for _ in 0..32 {
            messages.push(receiver.recv().await.unwrap());
        }
        messages
    };
    let ((), messages) = futures_util::future::join(sending, receiving).await;
    messages
}

#[test]
fn concurrent_full_duplex_under_backpressure() {
    within_deadline(async {
        let (mut left, mut right) = duplex(MemConfig { capacity: Some(1), ..MemConfig::default() });
        let exchanges =
            futures_util::future::join(exchange(&mut left, b'l'), exchange(&mut right, b'r'));
        let (from_right, from_left) = tokio::time::timeout(Duration::from_secs(5), exchanges)
            .await
            .expect("both peers must keep draining while they send");

        assert!(from_right.iter().all(|message| message[0] == b'r'));
        assert!(from_left.iter().all(|message| message[0] == b'l'));
    });
}

#[test]
fn reconnect_after_peer_loss() {
    within_deadline(async {
        let mut ends = network(MemConfig::default());
        let (mut client, server) = ends.build().await.unwrap();
        drop(server);
        assert!(client.send(b"message".to_vec()).await.is_err());

        let (mut client, mut server) = ends.build().await.unwrap();
        client.send(b"again".to_vec()).await.unwrap();
        assert_eq!(server.recv().await.unwrap(), b"again");
    });
}

#[test]
fn cancelled_receive_does_not_lose_the_message() {
    within_deadline(async {
        let (mut sender, mut receiver) = duplex(MemConfig {
            latency: Some(Duration::from_millis(10)),
            ..MemConfig::default()
        });
        let mut interval = tokio::time::interval(Duration::from_millis(1));
        let mut ticks = 0;
        let message = loop {
            let tick = Box::pin(interval.tick());
            let receive = Box::pin(receiver.recv());
            match futures_util::future::select(tick, receive).await {
                futures_util::future::Either::Left(_) => {
                    ticks += 1;
                    if ticks == 3 {
                        sender.send(b"late".to_vec()).await.unwrap();
                    }
                }
                futures_util::future::Either::Right((message, _)) => break message.unwrap(),
            }
        };
        assert_eq!(message, b"late");
    });
}

#[test]
fn a_counter_of_faults_runs_out() {
    let mut counter = 2;
    assert!(take_one(&mut counter));
    assert!(take_one(&mut counter));
    assert_eq!(counter, 0);
    assert!(!take_one(&mut counter));
    assert_eq!(counter, 0);
}

#[test]
fn the_limit_counts_bytes() {
    let config = MemConfig { max_message_len: Some(3), ..MemConfig::default() };
    assert_eq!(prepare(&config, vec![1, 2, 3]), Ok(vec![1, 2, 3]));
    assert_eq!(prepare(&config, vec![1, 2, 3, 4]), Err(3));
    assert_eq!(prepare(&MemConfig::default(), vec![0; 4096]), Ok(vec![0; 4096]));
}

#[test]
fn the_limit_comes_before_an_injected_failure() {
    let (mut left, _right) = duplex(MemConfig { max_message_len: Some(1), ..MemConfig::default() });
    left.fail_next(1);
    assert!(matches!(
        left.start_send(vec![0; 2]),
        SendStep::Finished(Err(SendError::TooLarge { max: 1 }))
    ));
    assert!(matches!(
        left.start_send(vec![0]),
        SendStep::Finished(Err(SendError::Transport(_)))
    ));
    assert!(matches!(
        left.start_send(vec![0]),
        SendStep::Enqueue { message, timeout: None } if message == [0]
    ));
}

#[test]
fn best_effort_decides_before_it_tries_the_queue() {
    let mut drops = 1;
    assert!(matches!(best_effort_gate(true, &mut drops), Some(Err(SendError::Closed))));
    assert_eq!(drops, 1);
    assert!(matches!(best_effort_gate(false, &mut drops), Some(Ok(()))));
    assert_eq!(drops, 0);
    assert!(best_effort_gate(false, &mut drops).is_none());
    assert!(best_effort_result(Ok(())).is_ok());
    assert!(best_effort_result(Err(mpsc::error::TrySendError::Full(vec![1]))).is_ok());
    assert!(matches!(
        best_effort_result(Err(mpsc::error::TrySendError::Closed(vec![1]))),
        Err(SendError::Closed)
    ));
}

#[test]
fn best_effort_attempt_enters_a_queue_with_room_and_is_lost_in_a_full_one() {
    let (mut sender, mut receiver) = outlet(1);
    assert_eq!(sender.sender().max_capacity(), 1);
    assert!(try_send_best_effort(&mut sender, vec![1, 2]).is_ok());
    assert!(try_send_best_effort(&mut sender, vec![3]).is_ok());
    assert_eq!(receiver.try_recv().unwrap(), vec![1, 2]);
    assert!(receiver.try_recv().is_err());
}

#[test]
fn queues_are_crossed_and_bounded_by_the_configured_capacity() {
    for (capacity, effective) in [(None, 1), (Some(0), 1), (Some(1), 1), (Some(5), 5)] {
        let (left, mut right) = duplex(MemConfig { capacity, ..MemConfig::default() });
        assert_eq!(left.sender().max_capacity(), effective);
        left.sender().try_send(vec![7]).unwrap();
        assert_eq!(right.receiver().try_recv().unwrap(), vec![7]);
        right.sender().try_send(vec![8]).unwrap();
        let mut left = left;
        assert_eq!(left.receiver().try_recv().unwrap(), vec![8]);
    }
}

#[test]
fn a_network_holds_a_limited_number_of_channels() {
    let (connector, _listener) = network(MemConfig::default());
    assert_eq!(connector.incoming().max_capacity(), 8);
}

#[test]
fn queued_messages_outlive_their_sender() {
    within_deadline(async {
        let (mut left, mut right) = duplex(MemConfig { capacity: Some(2), ..MemConfig::default() });
        left.send(vec![1]).await.unwrap();
        left.send(vec![2]).await.unwrap();
        drop(left);
        assert_eq!(right.recv().await.unwrap(), vec![1]);
        assert_eq!(right.recv().await.unwrap(), vec![2]);
        assert!(matches!(right.recv().await, Err(RecvError::Closed)));
    });
}

#[test]
fn halves_share_the_injected_faults_of_their_channel() {
    let (mut left, _right) = duplex(MemConfig::default());
    left.fail_next(2);
    {
        let (mut sender, _receiver) = left.split();
        assert!(matches!(
            sender.start_send(vec![1]),
            SendStep::Finished(Err(SendError::Transport(_)))
        ));
    }
    assert!(matches!(
        left.start_send(vec![1]),
        SendStep::Finished(Err(SendError::Transport(_)))
    ));
    assert!(matches!(left.start_send(vec![1]), SendStep::Enqueue { .. }));
}

#[test]
fn a_listener_accepts_in_the_order_of_the_builds() {
    within_deadline(async {
        let (mut connector, mut listener) = network(MemConfig::default());
        let mut clients = Vec::new();
        for index in 0..8 {
            let mut client = connect(&mut connector).await.unwrap();
            client.send(vec![index]).await.unwrap();
            clients.push(client);
        }
        drop(connector);
        for (index, client) in clients.iter_mut().enumerate() {
            let mut server = accept(&mut listener).await.unwrap();
            assert_eq!(server.recv().await.unwrap(), vec![index as u8]);
            server.send(vec![7]).await.unwrap();
            assert_eq!(client.recv().await.unwrap(), vec![7]);
        }
        assert!(matches!(accept(&mut listener).await, Err(BuildError::Unreachable)));
        assert!(matches!(accept(&mut listener).await, Err(BuildError::Unreachable)));
    });
}

#[test]
fn exactly_the_next_best_effort_sends_are_lost() {
    within_deadline(async {
        let (mut left, mut right) = duplex(MemConfig {
            capacity: Some(8),
            delivery: Delivery::BestEffort,
            ..MemConfig::default()
        });
        left.drop_next(5);
        left.drop_next(2);
        left.send(vec![0]).await.unwrap();
        {
            let (mut sender, _) = left.split();
            sender.send(vec![1]).await.unwrap();
        }
        left.send(vec![2]).await.unwrap();
        right.send(vec![3]).await.unwrap();
        assert_eq!(right.recv().await.unwrap(), vec![2]);
        assert_eq!(left.recv().await.unwrap(), vec![3]);
        drop(left);
        assert!(matches!(right.recv().await, Err(RecvError::Closed)));
        assert!(matches!(right.recv().await, Err(RecvError::Closed)));
    });
}

#[test]
fn refused_failed_and_lost_messages_are_not_offered() {
    let (mut left, mut right) = duplex(MemConfig {
        capacity: Some(8),
        max_message_len: Some(1),
        delivery: Delivery::BestEffort,
        ..MemConfig::default()
    });
    left.fail_next(1);
    left.drop_next(1);
    assert!(matches!(left.start_send(vec![0, 0]), SendStep::Finished(Err(_))));
    assert!(matches!(left.start_send(vec![1]), SendStep::Finished(Err(_))));
    assert!(matches!(left.start_send(vec![2]), SendStep::Finished(Ok(()))));
    assert!(right.receiver().try_recv().is_err());
    assert!(matches!(left.start_send(vec![3]), SendStep::Finished(Ok(()))));
    assert_eq!(right.receiver().try_recv().unwrap(), vec![3]);
    assert!(right.receiver().try_recv().is_err());

    let (mut left, mut right) = duplex(MemConfig::default());
    assert!(matches!(left.start_send(vec![4]), SendStep::Enqueue { .. }));
    assert!(matches!(left.resume_send(vec![4]), SendStep::Enqueue { .. }));
    assert!(right.receiver().try_recv().is_err());
}

/// Holds the place of the tests for cost functions.
#[test]
fn placeholder() {}
