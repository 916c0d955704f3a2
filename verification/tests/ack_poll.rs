use apalis_rsmq::{
    ack_request, delete_outcome, receive_outcome, Delivery, PrimitiveMessage, ReceivedMessage,
    RedisMqContext,
};
use rsmq_async::RsmqError;

#[test]
fn ack_deletes_a_successful_message() {
    let ctx = RedisMqContext::new(3);
    let id = "msg-1".to_string();
    let req = ack_request("email", true, 1, &ctx, Some(&id)).unwrap();
    assert_eq!(req.namespace, "email");
    assert_eq!(req.task_id, "msg-1");
}

#[test]
fn ack_keeps_a_failed_message_with_attempts_left() {
    let ctx = RedisMqContext::new(3);
    let id = "msg-1".to_string();
    assert!(ack_request("email", false, 2, &ctx, Some(&id)).is_none());
    assert!(ack_request("email", false, 0, &ctx, None).is_none());
}

#[test]
fn ack_deletes_a_failed_message_out_of_attempts() {
    let ctx = RedisMqContext::new(3);
    let id = "msg-9".to_string();
    let req = ack_request("q", false, 3, &ctx, Some(&id)).unwrap();
    assert_eq!(req.namespace, "q");
    assert_eq!(req.task_id, "msg-9");
    let req = ack_request("q", false, 4, &ctx, Some(&id)).unwrap();
    assert_eq!(req.task_id, "msg-9");
}

#[test]
fn ack_with_no_attempts_allowed_always_deletes() {
    let ctx = RedisMqContext::default();
    let id = "m".to_string();
    assert!(ack_request("q", false, 0, &ctx, Some(&id)).is_some());
}

#[test]
fn delete_outcome_deleted_is_ok() {
    assert_eq!(delete_outcome(Ok(true)), Ok(()));
}

#[test]
fn delete_outcome_missing_message() {
    assert_eq!(
        delete_outcome(Ok(false)),
        Err(RsmqError::MissingParameter("TaskId not found".to_owned()))
    );
}

#[test]
fn delete_outcome_passes_redis_error_on() {
    assert_eq!(delete_outcome(Err(RsmqError::QueueNotFound)), Err(RsmqError::QueueNotFound));
}

#[test]
fn receive_decoded_message_becomes_task() {
    let received = ReceivedMessage {
        id: "abc".to_string(),
        rc: 4,
        decoded: Ok(PrimitiveMessage { task: 42u32, context: RedisMqContext::new(5) }),
    };
    let step = receive_outcome(Ok(Some(received)));
    assert_eq!(step.prev_count, Some(1));
    let Delivery { args, context, task_id, attempt } = step.item.unwrap().unwrap();
    assert_eq!(args, 42);
    assert_eq!(context.max_attempts(), 5);
    assert_eq!(task_id, "abc");
    assert_eq!(attempt, 4);
}

#[test]
fn receive_undecodable_message_is_invalid_format() {
    let received: ReceivedMessage<u32> = ReceivedMessage {
        id: "abc".to_string(),
        rc: 1,
        decoded: Err("expected value at line 1 column 1".to_string()),
    };
    let step = receive_outcome(Ok(Some(received)));
    assert_eq!(step.prev_count, None);
    match step.item {
        Err(e) => assert_eq!(e, RsmqError::InvalidFormat("expected value at line 1 column 1".to_string())),
        Ok(_) => panic!("a message that does not decode must fail"),
    }
}

#[test]
fn receive_empty_queue_yields_nothing() {
    let step = receive_outcome::<u32>(Ok(None));
    assert_eq!(step.prev_count, Some(0));
    assert!(matches!(step.item, Ok(None)));
}

#[test]
fn receive_error_is_passed_on() {
    let step = receive_outcome::<u32>(Err(RsmqError::QueueNotFound));
    assert_eq!(step.prev_count, None);
    match step.item {
        Err(e) => assert_eq!(e, RsmqError::QueueNotFound),
        Ok(_) => panic!("the error must be passed on"),
    }
}
