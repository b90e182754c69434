use ddnsrs::channel::{Channel, RecvOutcome};
use ddnsrs::Message;

fn msg(ip: &str) -> Message {
    Message::new(String::from(ip))
}

#[test]
fn messages_arrive_in_publish_order() {
    let mut ch = Channel::new(4);
    ch.publish(msg("10.0.0.1"));
    ch.publish(msg("10.0.0.2"));
    match ch.recv() {
        RecvOutcome::Msg(m) => assert_eq!(m.ip().as_str(), "10.0.0.1"),
        other => panic!("expected a message, got {:?}", kind(&other)),
    }
    match ch.recv() {
        RecvOutcome::Msg(m) => assert_eq!(m.ip().as_str(), "10.0.0.2"),
        other => panic!("expected a message, got {:?}", kind(&other)),
    }
    assert!(matches!(ch.recv(), RecvOutcome::Empty));
}

#[test]
fn overflow_reports_the_loss_and_keeps_the_newest() {
    // Publish 10 messages into a channel of capacity 3 before the consumer
    // runs: it must learn of at least 10 - 3 = 7 dropped messages, and the
    // last message it observes must be the last one produced.
    let mut ch = Channel::new(3);
    for i in 1..=10 {
        ch.publish(msg(&format!("10.0.0.{}", i)));
    }
    match ch.recv() {
        RecvOutcome::Lagged(n) => assert!(n >= 7),
        other => panic!("expected a loss report, got {:?}", kind(&other)),
    }
    let mut last = None;
    loop {
        match ch.recv() {
            RecvOutcome::Msg(m) => last = Some(m.into_ip()),
            RecvOutcome::Empty => break,
            other => panic!("expected messages then empty, got {:?}", kind(&other)),
        }
    }
    assert_eq!(last, Some(String::from("10.0.0.10")));
}

#[test]
fn overflow_loss_count_is_exact_here() {
    let mut ch = Channel::new(3);
    for i in 1..=10 {
        ch.publish(msg(&format!("10.0.0.{}", i)));
    }
    match ch.recv() {
        RecvOutcome::Lagged(n) => assert_eq!(n, 7),
        other => panic!("expected a loss report, got {:?}", kind(&other)),
    }
    // The three newest survive, in order.
    for i in 8..=10 {
        match ch.recv() {
            RecvOutcome::Msg(m) => assert_eq!(m.ip(), &format!("10.0.0.{}", i)),
            other => panic!("expected a message, got {:?}", kind(&other)),
        }
    }
    assert!(matches!(ch.recv(), RecvOutcome::Empty));
}

#[test]
fn filling_to_capacity_loses_nothing() {
    let mut ch = Channel::new(3);
    for i in 1..=3 {
        ch.publish(msg(&format!("10.0.0.{}", i)));
    }
    for i in 1..=3 {
        match ch.recv() {
            RecvOutcome::Msg(m) => assert_eq!(m.ip(), &format!("10.0.0.{}", i)),
            other => panic!("expected a message, got {:?}", kind(&other)),
        }
    }
    assert!(matches!(ch.recv(), RecvOutcome::Empty));
}

#[test]
fn closed_channel_drains_then_reports_closed() {
    let mut ch = Channel::new(2);
    ch.publish(msg("10.0.0.1"));
    ch.close();
    match ch.recv() {
        RecvOutcome::Msg(m) => assert_eq!(m.ip().as_str(), "10.0.0.1"),
        other => panic!("expected a message, got {:?}", kind(&other)),
    }
    assert!(matches!(ch.recv(), RecvOutcome::Closed));
    assert!(matches!(ch.recv(), RecvOutcome::Closed));
}

fn kind(r: &RecvOutcome) -> &'static str {
    match r {
        RecvOutcome::Msg(_) => "Msg",
        RecvOutcome::Lagged(_) => "Lagged",
        RecvOutcome::Empty => "Empty",
        RecvOutcome::Closed => "Closed",
    }
}
