use gmsv_rhttp::callback::{deliver, CallbackTask};
use gmsv_rhttp::transfer::{Action, Event, Transfer};
use gmsv_rhttp::worker::{cancel_request, stats, AcceptedRequest, WorkerResources};
use reqwest::header::HeaderMap;

struct Request {
    entry: AcceptedRequest,
    transfer: Transfer,
}

fn start(worker: &mut WorkerResources, body_size: usize) -> Request {
    let entry = worker.accept(body_size).expect("there is room");
    let transfer = Transfer::new(Some(1), Some(2), 0, 0);
    Request { entry, transfer }
}

fn step(worker: &mut WorkerResources, request: Request, event: Event) -> (Request, Action) {
    let Request { entry, transfer } = request;
    assert!(transfer.buffered() <= worker.budget.used());
    let (transfer, action) = transfer.step(&mut worker.stats, &mut worker.budget, event);
    (Request { entry, transfer }, action)
}

fn receive(worker: &mut WorkerResources, request: Request, body: &[u8]) -> Request {
    let (request, _) = step(worker, request, Event::Proceed);
    let (request, _) = step(worker, request, Event::PermitReady);
    let response = Event::Response {
        status: 200,
        headers: HeaderMap::new(),
    };
    let (request, _) = step(worker, request, response);
    let (request, action) = step(worker, request, Event::Chunk(body.to_vec()));
    assert!(matches!(action, Action::ReadChunk));
    request
}

fn finish(worker: &mut WorkerResources, request: Request, event: Event) -> Vec<CallbackTask> {
    let (request, action) = step(worker, request, event);
    assert!(worker.stats.snapshot().in_flight > 0);
    assert!(request.entry.reserved_bytes() <= worker.budget.used());
    worker.complete(request.entry);
    match action {
        Action::Finish(tasks) => tasks,
        other => panic!("the request goes on: {:?}", other),
    }
}

#[test]
fn books_balance_over_requests_that_overlap() {
    let mut worker = WorkerResources::new();
    let first = start(&mut worker, 10);
    let second = start(&mut worker, 20);
    let first = receive(&mut worker, first, b"abc");
    let third = start(&mut worker, 0);
    let third = receive(&mut worker, third, b"defgh");
    assert_eq!(stats(Some(&worker)).in_flight, 3);
    assert_eq!(worker.budget.used(), 10 + 20 + 3 + 5);

    finish(&mut worker, second, Event::Cancelled);
    assert_eq!(worker.budget.used(), 10 + 3 + 5);
    let waiting = finish(&mut worker, first, Event::StreamEnded);
    assert_eq!(worker.budget.used(), 3 + 5);
    finish(&mut worker, third, Event::StreamFailed("reset".to_string()));
    assert_eq!(worker.budget.used(), 3);

    let now = stats(Some(&worker));
    assert_eq!(now.in_flight, 0);
    assert_eq!(now.submitted, 3);
    assert_eq!((now.succeeded, now.failed, now.cancelled), (1, 1, 1));

    for task in waiting {
        worker.delivered(deliver(task).buffered);
    }
    assert_eq!(worker.budget.used(), 0);
}

#[test]
fn live_requests_are_those_that_can_be_cancelled() {
    let mut worker = WorkerResources::new();
    let first = start(&mut worker, 0);
    let second = start(&mut worker, 0);
    finish(&mut worker, first, Event::Cancelled);
    let third = start(&mut worker, 0);
    assert_eq!(third.entry.request().id, 3);
    assert!(!cancel_request(Some(&mut worker), 0));
    assert!(!cancel_request(Some(&mut worker), 1));
    assert!(cancel_request(Some(&mut worker), 2));
    assert!(second.entry.request().is_cancelled(&worker.requests));
    assert!(!third.entry.request().is_cancelled(&worker.requests));
    assert!(cancel_request(Some(&mut worker), 3));
    assert!(!cancel_request(Some(&mut worker), 4));
}
