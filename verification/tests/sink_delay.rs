use apalis_rsmq::{
    delay_between, delay_from, delay_until, prepare_send, FlushStep, RsMqSink, SendProgress,
    UtcInstant, UTC_MAX_TIMESTAMP,
};
use rsmq_async::RsmqError;

fn at(secs: i64, nanos: u32) -> UtcInstant {
    UtcInstant { secs, nanos }
}

#[test]
fn delay_is_zero_for_the_past() {
    assert_eq!(delay_from(100, at(200, 0)), 0);
    assert_eq!(delay_from(0, at(1_700_000_000, 5)), 0);
}

#[test]
fn delay_is_zero_for_now() {
    assert_eq!(delay_from(200, at(200, 0)), 0);
    assert_eq!(delay_from(200, at(200, 999_999_999)), 0);
}

#[test]
fn delay_counts_whole_seconds() {
    assert_eq!(delay_from(210, at(200, 0)), 10);
    // 9.5 seconds away: the half second is dropped
    assert_eq!(delay_from(210, at(200, 500_000_000)), 9);
    assert_eq!(delay_from(201, at(200, 1)), 0);
}

#[test]
fn delay_between_instants() {
    assert_eq!(delay_between(at(10, 0), at(5, 0)), 5);
    assert_eq!(delay_between(at(10, 100), at(5, 200)), 4);
    assert_eq!(delay_between(at(10, 300), at(10, 200)), 0);
    assert_eq!(delay_between(at(5, 0), at(10, 0)), 0);
}

#[test]
fn delay_until_the_past_is_zero() {
    assert_eq!(delay_until(0), Some(0));
    assert_eq!(delay_until(1_000), Some(0));
}

#[test]
fn delay_until_the_future_is_bounded() {
    let now = chrono::Utc::now().timestamp() as u64;
    let d = delay_until(now + 3_600).unwrap();
    assert!(d <= 3_600);
    assert!(d >= 3_590);
    assert!(delay_until(UTC_MAX_TIMESTAMP as u64).unwrap() > 0);
}

#[test]
fn prepare_send_keeps_payload() {
    let m = prepare_send(0, Ok(vec![1, 2, 3])).unwrap().unwrap();
    assert_eq!(m.payload, vec![1, 2, 3]);
    assert_eq!(m.delay_secs, 0);
}

#[test]
fn prepare_send_encoding_error() {
    match prepare_send(0, Err("key must be a string".to_string())).unwrap() {
        Err(e) => assert_eq!(e, RsmqError::InvalidFormat("key must be a string".to_string())),
        Ok(_) => panic!("an encoding error must fail"),
    }
}

#[test]
fn sink_items_first_in_first_out() {
    let mut sink: RsMqSink<u32, u32> = RsMqSink::new();
    sink.start_send(1);
    sink.start_send(2);
    assert_eq!(sink.next_item(), Some(1));
    sink.start_send(3);
    assert_eq!(sink.next_item(), Some(2));
    assert_eq!(sink.next_item(), Some(3));
    assert_eq!(sink.next_item(), None);
}

#[test]
fn sink_sends_first_in_first_out() {
    let mut sink: RsMqSink<u32, &str> = RsMqSink::new();
    sink.push_pending("a");
    sink.push_pending("b");
    assert_eq!(sink.next_pending(), Some("a"));
    assert_eq!(sink.next_pending(), Some("b"));
    assert_eq!(sink.next_pending(), None);
}

#[test]
fn sink_waiting_send_goes_back_to_front() {
    let mut sink: RsMqSink<u32, &str> = RsMqSink::new();
    sink.push_pending("a");
    sink.push_pending("b");
    let front = sink.next_pending().unwrap();
    assert!(matches!(sink.settle(front, SendProgress::Waiting), FlushStep::Pending));
    assert_eq!(sink.next_pending(), Some("a"));
    assert_eq!(sink.next_pending(), Some("b"));
}

#[test]
fn sink_sent_send_is_dropped() {
    let mut sink: RsMqSink<u32, &str> = RsMqSink::new();
    sink.push_pending("a");
    sink.push_pending("b");
    let front = sink.next_pending().unwrap();
    assert!(matches!(sink.settle(front, SendProgress::Sent), FlushStep::Continue));
    assert_eq!(sink.next_pending(), Some("b"));
    assert_eq!(sink.next_pending(), None);
}

#[test]
fn sink_failed_send_ends_flush() {
    let mut sink: RsMqSink<u32, &str> = RsMqSink::new();
    sink.push_pending("a");
    sink.push_pending("b");
    let front = sink.next_pending().unwrap();
    match sink.settle(front, SendProgress::Failed(RsmqError::MessageTooLong)) {
        FlushStep::Ready(Err(e)) => assert_eq!(e, RsmqError::MessageTooLong),
        _ => panic!("a failed send must end the flush with its error"),
    }
    assert_eq!(sink.next_pending(), Some("b"));
}

#[test]
fn sink_clone_is_empty() {
    let mut sink: RsMqSink<u32, u32> = RsMqSink::new();
    sink.start_send(1);
    sink.push_pending(2);
    let mut copy = sink.clone();
    assert_eq!(copy.next_item(), None);
    assert_eq!(copy.next_pending(), None);
    assert_eq!(sink.next_item(), Some(1));
}

#[test]
fn later_run_time_never_waits_less() {
    let now = at(1_000, 250_000_000);
    let mut last = 0;
    for t in [0u64, 999, 1_000, 1_001, 1_002, 1_500, 9_999] {
        let d = delay_from(t, now);
        assert!(d >= last);
        last = d;
        if t as i64 > now.secs {
            assert!(now.secs as u64 + d <= t && t <= now.secs as u64 + d + 1);
        } else {
            assert_eq!(d, 0);
        }
    }
}

#[test]
fn flush_polls_sends_in_order_each_once() {
    // three sends; the middle one is polled twice before it completes
    let mut sink: RsMqSink<u32, &str> = RsMqSink::new();
    for s in ["s1", "s2", "s3"] {
        sink.push_pending(s);
    }
    let outcomes = [SendProgress::Sent, SendProgress::Waiting, SendProgress::Sent, SendProgress::Sent];
    let mut polled = Vec::new();
    let mut left = Vec::new();
    for progress in outcomes {
        let front = sink.next_pending().unwrap();
        polled.push(front);
        let waiting = matches!(progress, SendProgress::Waiting);
        sink.settle(front, progress);
        if !waiting {
            left.push(front);
        }
    }
    assert_eq!(polled, vec!["s1", "s2", "s2", "s3"]);
    assert_eq!(left, vec!["s1", "s2", "s3"]);
    assert_eq!(sink.next_pending(), None);
}
