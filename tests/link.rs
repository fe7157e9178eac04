use water_controller_relay::hub::FanOutHub;
use water_controller_relay::input::ParseInputError;
use water_controller_relay::link::{
    relay_line, LineBuffer, LinkAction, LinkEvent, LinkState, RetryDecision, RetryPolicy,
    SerialLink,
};

fn feed(link: &mut SerialLink, bytes: &[u8]) -> Vec<String> {
    let mut lines = Vec::new();
    for &b in bytes {
        match link.step(LinkEvent::Byte(b)) {
            LinkAction::Line(s) => lines.push(s),
            LinkAction::Read => {}
            other => panic!("unexpected action {other:?}"),
        }
    }
    lines
}

#[test]
fn unbounded_policy_always_retries() {
    let policy = RetryPolicy::unbounded(100);
    assert_eq!(policy.decide(1), RetryDecision::RetryAfter(100));
    assert_eq!(policy.decide(u32::MAX), RetryDecision::RetryAfter(100));
}

#[test]
fn capped_policy_gives_up_after_max_attempts() {
    let policy = RetryPolicy::capped(3000, 10);
    assert_eq!(policy.decide(9), RetryDecision::RetryAfter(3000));
    assert_eq!(policy.decide(10), RetryDecision::GiveUp);
}

#[test]
fn line_buffer_splits_on_newline_and_drops_carriage_return() {
    let mut buf = LineBuffer::new();
    assert_eq!(buf.push_byte(b'a'), None);
    assert_eq!(buf.push_byte(b'\r'), None);
    assert_eq!(buf.push_byte(b'b'), None);
    assert_eq!(buf.push_byte(b'\n'), Some(b"ab".to_vec()));
    assert_eq!(buf.push_byte(b'\n'), Some(Vec::new()));
}

#[test]
fn link_reads_lines_after_opening() {
    let mut link = SerialLink::new(RetryPolicy::unbounded(100));
    assert!(matches!(link.step(LinkEvent::Opened), LinkAction::Read));
    assert_eq!(link.state(), LinkState::Reading);
    let lines = feed(&mut link, b"0,0,0\r\n1,1");
    assert_eq!(lines, vec!["0,0,0".to_string()]);
    // a timeout keeps the partial line
    assert!(matches!(link.step(LinkEvent::TimedOut), LinkAction::Read));
    let lines = feed(&mut link, b",0\n");
    assert_eq!(lines, vec!["1,1,0".to_string()]);
}

#[test]
fn failed_open_waits_then_retries() {
    let mut link = SerialLink::new(RetryPolicy::unbounded(100));
    assert!(matches!(link.step(LinkEvent::OpenFailed), LinkAction::WaitThenOpen(100)));
    assert_eq!(link.state(), LinkState::Opening { failures: 1 });
    assert!(matches!(link.step(LinkEvent::OpenFailed), LinkAction::WaitThenOpen(100)));
    assert_eq!(link.state(), LinkState::Opening { failures: 2 });
    assert!(matches!(link.step(LinkEvent::Opened), LinkAction::Read));
}

#[test]
fn capped_link_stops_after_too_many_failures() {
    let mut link = SerialLink::new(RetryPolicy::capped(10, 2));
    assert!(matches!(link.step(LinkEvent::OpenFailed), LinkAction::WaitThenOpen(10)));
    assert!(matches!(link.step(LinkEvent::OpenFailed), LinkAction::GiveUp));
    assert_eq!(link.state(), LinkState::Stopped);
    assert!(matches!(link.step(LinkEvent::Opened), LinkAction::GiveUp));
}

#[test]
fn broken_pipe_mid_read_reopens_after_delay() {
    let mut hub = FanOutHub::new(10);
    let sub = hub.subscribe();
    let mut link = SerialLink::new(RetryPolicy::unbounded(100));
    link.step(LinkEvent::Opened);
    let lines = feed(&mut link, b"0,0,0,0,0,0,0,0,0\n0,0,");
    for line in &lines {
        relay_line(&mut hub, line).unwrap();
    }
    assert!(matches!(link.step(LinkEvent::ReadFailed), LinkAction::WaitThenOpen(100)));
    assert_eq!(link.state(), LinkState::Opening { failures: 0 });
    // the subscriber still has what was relayed before the failure
    assert_eq!(hub.subscriber_count(), 1);
    assert!(hub.try_recv(&sub).is_some());
    assert!(hub.try_recv(&sub).is_some());
    // after reopening the partial line is gone
    assert!(matches!(link.step(LinkEvent::Opened), LinkAction::Read));
    let lines = feed(&mut link, b"1,1,0,1,1,1,0,1,1\n");
    assert_eq!(lines, vec!["1,1,0,1,1,1,0,1,1".to_string()]);
}

#[test]
fn invalid_utf8_line_drops_the_connection() {
    let mut link = SerialLink::new(RetryPolicy::unbounded(50));
    link.step(LinkEvent::Opened);
    assert!(matches!(link.step(LinkEvent::Byte(0xff)), LinkAction::Read));
    assert!(matches!(link.step(LinkEvent::Byte(b'\n')), LinkAction::WaitThenOpen(50)));
    assert_eq!(link.state(), LinkState::Opening { failures: 0 });
}

#[test]
fn relay_line_publishes_button_then_controller() {
    let mut hub = FanOutHub::new(10);
    let sub = hub.subscribe();
    assert_eq!(relay_line(&mut hub, "0,0,0,0,0,0,0,0,0").unwrap(), 1);
    assert_eq!(
        hub.try_recv(&sub),
        Some(r#"{"type":"button-input","isPushed":false}"#.to_string())
    );
    assert_eq!(
        hub.try_recv(&sub),
        Some(r#"{"type":"controller-input","left":0,"right":0,"up":0,"down":0}"#.to_string())
    );
    assert_eq!(hub.try_recv(&sub), None);
}

#[test]
fn rejected_line_publishes_nothing() {
    let mut hub = FanOutHub::new(10);
    let sub = hub.subscribe();
    match relay_line(&mut hub, "0,0,0,0,1,0,0,0,0") {
        Err(ParseInputError::InvalidControllerCombination { low_index: 3, high_index: 4, .. }) => {}
        other => panic!("unexpected result: {other:?}"),
    }
    assert_eq!(hub.try_recv(&sub), None);
}
