use gmsv_rhttp::callback::CallbackTask;
use gmsv_rhttp::error::RequestError;
use gmsv_rhttp::launch::{fail_request, launch_planned, launch_request, Launch};
use gmsv_rhttp::request::RequestOptions;
use gmsv_rhttp::transfer::{Action, Event};
use gmsv_rhttp::worker::{stats, WorkerResources};

fn options(url: &str, body: Option<Vec<u8>>) -> RequestOptions {
    RequestOptions {
        url: Some(url.to_string()),
        method: Some("post".to_string()),
        headers: None,
        parameters: None,
        body,
        body_type: None,
        timeout: None,
        retries: Some(1),
        retry_delay: None,
    }
}

fn answer(launch: Launch) -> String {
    match launch {
        Launch::Refused(tasks) => {
            assert_eq!(tasks.len(), 2);
            assert!(matches!(tasks[1], CallbackTask::DropRef(1)));
            match &tasks[0] {
                CallbackTask::Failed(2, message) => message.clone(),
                other => panic!("no failure: {:?}", other),
            }
        }
        other => panic!("the request was queued: {:?}", other),
    }
}

#[test]
fn launched_request_is_on_its_way() {
    let mut worker = WorkerResources::new();
    let launch = launch_request(
        Some(&mut worker),
        options("HTTP://Example.com", Some(vec![0; 7])),
        Some(1),
        Some(2),
    );
    match launch {
        Launch::Queued {
            plan,
            entry,
            transfer,
        } => {
            assert_eq!(plan.url, "http://example.com/");
            assert_eq!(plan.method.as_str(), "POST");
            assert_eq!(plan.retries, 1);
            assert_eq!(entry.request().id, 1);
            assert_eq!(entry.reserved_bytes(), 7);
            assert_eq!(worker.budget.used(), 7);
            assert_eq!(stats(Some(&worker)).in_flight, 1);
            let (transfer, action) =
                transfer.step(&mut worker.stats, &mut worker.budget, Event::Proceed);
            assert!(matches!(action, Action::AcquirePermit));
            assert_eq!(transfer.buffered(), 0);
            worker.complete(entry);
            assert_eq!(worker.budget.used(), 0);
        }
        other => panic!("the request was refused: {:?}", other),
    }
}

#[test]
fn request_without_a_plan_is_answered_and_changes_nothing() {
    let mut worker = WorkerResources::new();
    let launch = launch_request(Some(&mut worker), options("nowhere", None), Some(1), Some(2));
    assert_eq!(answer(launch), "Invalid URL: relative URL without a base");
    assert_eq!(stats(Some(&worker)).submitted, 0);
    assert_eq!(worker.requests.register().id, 1);
}

#[test]
fn request_is_answered_when_nothing_is_running() {
    let launch = launch_request(None, options("http://localhost/", None), Some(1), Some(2));
    assert_eq!(answer(launch), "rhttp is not initialized");
    let launch = launch_request(None, options("nowhere", None), Some(1), Some(2));
    assert_eq!(answer(launch), "Invalid URL: relative URL without a base");
}

#[test]
fn request_is_answered_when_the_queue_is_full() {
    let mut worker = WorkerResources::new();
    for _ in 0..1024 {
        worker.accept(0).expect("there is room");
    }
    let launch = launch_request(
        Some(&mut worker),
        options("http://localhost/", None),
        Some(1),
        Some(2),
    );
    assert_eq!(answer(launch), "rhttp request queue is full (limit: 1024)");
    assert_eq!(stats(Some(&worker)).submitted, 1024);
}

#[test]
fn request_is_answered_when_the_buffers_are_full() {
    let mut worker = WorkerResources::new();
    assert!(worker.budget.try_reserve(67_108_860));
    let launch = launch_request(
        Some(&mut worker),
        options("http://localhost/", Some(vec![0; 5])),
        Some(1),
        Some(2),
    );
    assert_eq!(answer(launch), "rhttp buffered body limit reached");
    assert_eq!(stats(Some(&worker)).submitted, 0);
    assert_eq!(worker.budget.used(), 67_108_860);
}

#[test]
fn refusal_without_callbacks_needs_no_answer() {
    match launch_planned(None, Err(RequestError::BodyTooLarge), None, None) {
        Launch::Refused(tasks) => assert!(tasks.is_empty()),
        other => panic!("the request was queued: {:?}", other),
    }
    let tasks = fail_request(Some(3), None, RequestError::QueueFull);
    assert_eq!(tasks.len(), 1);
    assert!(matches!(tasks[0], CallbackTask::DropRef(3)));
}
