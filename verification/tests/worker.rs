use gmsv_rhttp::error::RequestError;
use gmsv_rhttp::stats::StatsSnapshot;
use gmsv_rhttp::worker::{cancel_request, request_id, stats, submit, WorkerResources};

#[test]
fn request_is_accepted_and_completed() {
    let mut worker = WorkerResources::new();
    let entry = submit(Some(&mut worker), 100).expect("there is room");
    assert_eq!(entry.request().id, 1);
    assert_eq!(entry.reserved_bytes(), 100);
    assert!(!entry.request().is_cancelled(&worker.requests));
    assert_eq!(worker.budget.used(), 100);
    assert_eq!(stats(Some(&worker)).in_flight, 1);
    assert_eq!(stats(Some(&worker)).submitted, 1);

    worker.complete(entry);
    assert_eq!(worker.budget.used(), 0);
    assert_eq!(
        stats(Some(&worker)),
        StatsSnapshot {
            submitted: 1,
            ..StatsSnapshot::default()
        }
    );
    assert!(!cancel_request(Some(&mut worker), 1));
}

#[test]
fn client_that_is_not_running_refuses_everything() {
    let error = submit(None, 0).err().expect("nothing is running");
    assert!(matches!(error, RequestError::NotInitialized));
    assert_eq!(stats(None), StatsSnapshot::default());
    assert!(!cancel_request(None, 1));
}

#[test]
fn full_queue_refuses_a_request_and_keeps_its_state() {
    let mut worker = WorkerResources::new();
    for _ in 0..1024 {
        worker.accept(0).expect("there is room");
    }
    let error = worker.accept(0).err().expect("the queue is full");
    assert!(matches!(error, RequestError::QueueFull));
    assert_eq!(stats(Some(&worker)).in_flight, 1024);
    assert_eq!(stats(Some(&worker)).submitted, 1024);
    assert!(!cancel_request(Some(&mut worker), 1025));
}

#[test]
fn full_buffers_refuse_a_body_and_keep_their_state() {
    let mut worker = WorkerResources::new();
    for _ in 0..3 {
        worker.accept(20_971_520).expect("there is room");
    }
    let error = worker.accept(20_971_520).err().expect("the buffers are full");
    assert!(matches!(error, RequestError::BufferFull));
    assert_eq!(worker.budget.used(), 62_914_560);
    assert_eq!(stats(Some(&worker)).submitted, 3);
    worker.accept(4_194_304).expect("there is just enough room");
    worker.accept(0).expect("no body needs no room");
}

#[test]
fn live_request_can_be_cancelled_and_an_ended_one_cannot() {
    let mut worker = WorkerResources::new();
    let first = worker.accept(0).expect("there is room");
    let second = worker.accept(0).expect("there is room");
    worker.complete(first);
    assert!(!cancel_request(Some(&mut worker), 1));
    assert!(cancel_request(Some(&mut worker), 2));
    assert!(second.request().is_cancelled(&worker.requests));
    worker.complete(second);
    assert!(!cancel_request(Some(&mut worker), 2));
}

#[test]
fn delivered_bodies_give_their_room_back() {
    let mut worker = WorkerResources::new();
    assert!(worker.budget.try_reserve(500));
    worker.delivered(200);
    assert_eq!(worker.budget.used(), 300);
    worker.delivered(300);
    assert_eq!(worker.budget.used(), 0);
}

#[test]
fn shutdown_cancels_every_request() {
    let mut worker = WorkerResources::new();
    let first = worker.accept(0).expect("there is room");
    let second = worker.accept(0).expect("there is room");
    worker.shutdown();
    assert!(first.request().is_cancelled(&worker.requests));
    assert!(second.request().is_cancelled(&worker.requests));
    assert!(!cancel_request(Some(&mut worker), 1));
    assert_eq!(stats(Some(&worker)).in_flight, 2);
    worker.complete(first);
    worker.complete(second);
    assert_eq!(stats(Some(&worker)).in_flight, 0);
}

#[test]
fn script_numbers_name_requests() {
    assert_eq!(request_id(7), 7);
    assert_eq!(request_id(0), 0);
    assert_eq!(request_id(-1), 0);
    assert_eq!(request_id(i64::MIN), 0);
    assert_eq!(request_id(i64::MAX), 9_223_372_036_854_775_807);
}
