use gmsv_rhttp::callback::{
    deliver, may_deliver_more, report_failure, report_success, Argument, CallbackTask,
};
use reqwest::header::{HeaderMap, HeaderValue};

fn reference(task: CallbackTask) -> i32 {
    deliver(task).reference
}

fn references(tasks: Vec<CallbackTask>) -> Vec<i32> {
    let mut found = Vec::new();
    for task in tasks {
        found.push(reference(task));
    }
    found
}

#[test]
fn failure_calls_one_callback_and_drops_the_other() {
    let tasks = report_failure(Some(1), Some(2), "why".to_string());
    assert_eq!(tasks.len(), 2);
    match &tasks[0] {
        CallbackTask::Failed(2, message) => assert_eq!(message, "why"),
        other => panic!("no failure: {:?}", other),
    }
    assert!(matches!(tasks[1], CallbackTask::DropRef(1)));
}

#[test]
fn success_calls_one_callback_and_drops_the_other() {
    let tasks = report_success(Some(1), Some(2), 404, b"gone".to_vec(), HeaderMap::new());
    assert_eq!(tasks.len(), 2);
    match &tasks[0] {
        CallbackTask::Success(1, 404, body, headers) => {
            assert_eq!(body, b"gone");
            assert!(headers.is_empty());
        }
        other => panic!("no success: {:?}", other),
    }
    assert!(matches!(tasks[1], CallbackTask::DropRef(2)));
}

#[test]
fn each_callback_is_released_once() {
    for (success, failed) in [(None, None), (Some(1), None), (None, Some(2)), (Some(1), Some(2))] {
        let mut held: Vec<i32> = Vec::new();
        held.extend(success);
        held.extend(failed);

        let mut released = references(report_failure(success, failed, String::new()));
        released.sort();
        assert_eq!(released, held);

        let tasks = report_success(success, failed, 200, vec![], HeaderMap::new());
        let mut released = references(tasks);
        released.sort();
        assert_eq!(released, held);
    }
}

#[test]
fn success_is_delivered_with_status_body_and_headers() {
    let mut headers = HeaderMap::new();
    headers.append("X-Part", HeaderValue::from_static("one"));
    headers.append("X-Part", HeaderValue::from_static("two"));
    let delivery = deliver(CallbackTask::Success(5, 200, vec![0, 255, 10], headers));
    assert_eq!(delivery.reference, 5);
    assert_eq!(delivery.buffered, 3);
    let arguments = delivery.arguments.expect("there is a call");
    assert_eq!(arguments.len(), 3);
    assert!(matches!(arguments[0], Argument::Integer(200)));
    match &arguments[1] {
        Argument::Bytes(body) => assert_eq!(body, &vec![0, 255, 10]),
        other => panic!("no body: {:?}", other),
    }
    match &arguments[2] {
        Argument::Table(table) => {
            assert_eq!(table, &vec![("x-part".to_string(), b"two".to_vec())]);
        }
        other => panic!("no headers: {:?}", other),
    }
}

#[test]
fn failure_is_delivered_with_its_message() {
    let delivery = deliver(CallbackTask::Failed(6, "Request cancelled".to_string()));
    assert_eq!(delivery.reference, 6);
    assert_eq!(delivery.buffered, 0);
    let arguments = delivery.arguments.expect("there is a call");
    assert_eq!(arguments.len(), 1);
    match &arguments[0] {
        Argument::Text(message) => assert_eq!(message, "Request cancelled"),
        other => panic!("no message: {:?}", other),
    }
}

#[test]
fn dropped_reference_is_not_called() {
    let delivery = deliver(CallbackTask::DropRef(7));
    assert_eq!(delivery.reference, 7);
    assert!(delivery.arguments.is_none());
    assert_eq!(delivery.buffered, 0);
}

#[test]
fn frame_stops_after_two_milliseconds() {
    assert!(may_deliver_more(0));
    assert!(may_deliver_more(1_999_999));
    assert!(!may_deliver_more(2_000_000));
    assert!(!may_deliver_more(u128::MAX));
}
