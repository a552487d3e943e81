//! The verdicts of the conformance checks.

use fungi_transport::error::{Cause, RecvError, SendError};
use fungi_transport::testkit::checks::{
    build_use_drop_rebuild, closed_after_peer_drop, mutual_bursts_converge, recv_is_cancel_safe,
    roundtrip_both_directions, too_large, too_large_is_recoverable,
};
use fungi_transport::testkit::{Action, Check, Event, Side, Step};

fn accepted() -> Event {
    Event::Sent(Ok(()))
}

fn received(message: &[u8]) -> Event {
    Event::Received(Ok(message.to_vec()))
}

fn verdict(mut check: Check, events: Vec<Event>) -> Action {
    for event in events {
        check.observe(event);
    }
    check.next()
}

#[test]
fn a_roundtrip_delivers_each_message_intact() {
    let check = roundtrip_both_directions();
    assert!(matches!(
        check.next(),
        Action::Send { side: Side::Left, message } if message == b"first"
    ));
    let events = vec![
        accepted(),
        received(b"first"),
        accepted(),
        received(b"second"),
        accepted(),
        received(b"reply"),
    ];
    assert!(matches!(verdict(check, events), Action::Passed));
}

#[test]
fn a_roundtrip_fails_on_another_message() {
    let events = vec![accepted(), received(b"second"), accepted(), received(b"first")];
    assert!(matches!(verdict(roundtrip_both_directions(), events), Action::Failed));
    let events = vec![Event::Sent(Err(SendError::Closed))];
    assert!(matches!(verdict(roundtrip_both_directions(), events), Action::Failed));
    let events = vec![accepted(), Event::Received(Err(RecvError::Closed))];
    assert!(matches!(verdict(roundtrip_both_directions(), events), Action::Failed));
}

#[test]
fn a_verdict_is_final() {
    let mut check = closed_after_peer_drop();
    check.observe(Event::Pending);
    assert!(matches!(check.next(), Action::Failed));
    check.observe(Event::Dropped);
    check.observe(Event::Received(Err(RecvError::Closed)));
    assert!(matches!(check.next(), Action::Failed));

    let mut check = closed_after_peer_drop();
    check.observe(Event::Dropped);
    check.observe(Event::Received(Err(RecvError::Closed)));
    check.observe(Event::Pending);
    assert!(matches!(check.next(), Action::Passed));
}

#[test]
fn closure_is_told_from_other_failures() {
    let broken = || RecvError::Transport(Cause::Text("broken".into()));
    let mut check = closed_after_peer_drop();
    assert!(matches!(check.next(), Action::Drop { side: Side::Left }));
    check.observe(Event::Dropped);
    assert!(matches!(
        check.next(),
        Action::Receive { side: Side::Right, within_millis: None }
    ));
    check.observe(Event::Received(Err(broken())));
    assert!(matches!(check.next(), Action::Failed));

    let events = vec![
        Event::Built(true),
        accepted(),
        received(b"message"),
        Event::Dropped,
        Event::Received(Err(broken())),
        Event::Built(true),
        accepted(),
        received(b"again"),
    ];
    assert!(matches!(verdict(build_use_drop_rebuild(), events), Action::Passed));
}

#[test]
fn a_rebuild_has_to_notice_the_loss_in_time() {
    let mut check = build_use_drop_rebuild();
    assert!(matches!(check.next(), Action::Build));
    check.observe(Event::Built(true));
    check.observe(accepted());
    check.observe(received(b"message"));
    assert!(matches!(check.next(), Action::Drop { side: Side::Right }));
    check.observe(Event::Dropped);
    assert!(matches!(
        check.next(),
        Action::Receive { side: Side::Left, within_millis: Some(5000) }
    ));
    check.observe(Event::Pending);
    assert!(matches!(check.next(), Action::Failed));
    assert!(matches!(
        verdict(build_use_drop_rebuild(), vec![Event::Built(false)]),
        Action::Failed
    ));
}

#[test]
fn ten_abandoned_receives_consume_nothing() {
    let mut check = recv_is_cancel_safe();
    for _ in 0..10 {
        assert!(matches!(
            check.next(),
            Action::Receive { side: Side::Right, within_millis: Some(5) }
        ));
        check.observe(Event::Pending);
    }
    assert!(matches!(
        check.next(),
        Action::Send { side: Side::Left, message } if message == b"message"
    ));
    check.observe(accepted());
    check.observe(received(b"message"));
    assert!(matches!(check.next(), Action::Passed));
}

#[test]
fn a_limit_has_to_be_reported_exactly() {
    let check = too_large(8);
    assert!(matches!(
        check.next(),
        Action::Send { side: Side::Left, message } if message == vec![0; 9]
    ));
    let refused = |max| vec![Event::Sent(Err(SendError::TooLarge { max }))];
    assert!(matches!(verdict(too_large(8), refused(8)), Action::Passed));
    assert!(matches!(verdict(too_large(8), refused(9)), Action::Failed));
    assert!(matches!(verdict(too_large(8), vec![accepted()]), Action::Failed));
}

#[test]
fn recovery_sends_a_message_within_the_limit() {
    for (max, len) in [(0, 0), (1, 1), (4, 4), (5, 5), (8, 5)] {
        let mut check = too_large_is_recoverable(max);
        check.observe(Event::Sent(Err(SendError::TooLarge { max })));
        assert!(matches!(
            check.next(),
            Action::Send { side: Side::Left, message } if message == vec![0x42; len]
        ));
        check.observe(accepted());
        check.observe(received(&vec![0x42; len]));
        assert!(matches!(check.next(), Action::Passed));
    }
}

#[test]
fn a_check_of_no_steps_passes() {
    assert!(matches!(Check::new(Vec::new()).next(), Action::Passed));
}

#[test]
fn a_receive_without_expectation_takes_any_message() {
    let steps = || vec![Step::Receive { side: Side::Left, noted: None }];
    assert!(matches!(verdict(Check::new(steps()), vec![received(b"any")]), Action::Passed));
    assert!(matches!(
        verdict(Check::new(steps()), vec![Event::Received(Err(RecvError::Closed))]),
        Action::Failed
    ));
}

#[test]
fn burst_messages_carry_the_tag_and_a_wrapping_number() {
    let ((mut left, _), (right, _)) = mutual_bursts_converge(258);
    assert_eq!(right.next_message(), Some(vec![b'r', 0]));
    for index in 0..258usize {
        assert_eq!(left.next_message(), Some(vec![b'l', (index % 256) as u8]));
        left.sent(&Ok(()));
    }
    assert_eq!(left.next_message(), None);
    assert!(!left.failed());
}

#[test]
fn a_burst_ends_at_the_first_failure() {
    let ((mut sender, mut receiver), _) = mutual_bursts_converge(2);
    assert!(receiver.expects_message());
    receiver.received(&Ok(vec![b'r', 0]));
    assert!(receiver.expects_message());
    receiver.received(&Err(RecvError::Closed));
    assert!(!receiver.expects_message());
    assert!(receiver.failed());
    sender.sent(&Err(SendError::Closed));
    assert_eq!(sender.next_message(), None);
    assert!(sender.failed());

    let ((sender, receiver), _) = mutual_bursts_converge(0);
    assert_eq!(sender.next_message(), None);
    assert!(!receiver.expects_message());
}
