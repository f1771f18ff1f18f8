use gmsv_rhttp::budget::BodyBudget;
use gmsv_rhttp::callback::CallbackTask;
use gmsv_rhttp::stats::{HttpStats, StatsSnapshot};
use gmsv_rhttp::transfer::{Action, Event, Transfer};
use reqwest::header::{HeaderMap, HeaderValue, RETRY_AFTER};

const SUCCESS: i32 = 11;
const FAILED: i32 = 22;

struct Run {
    transfer: Option<Transfer>,
    stats: HttpStats,
    budget: BodyBudget,
}

impl Run {
    fn new(retries: usize) -> Run {
        Run::with(Some(SUCCESS), Some(FAILED), retries)
    }

    fn with(success_cb: Option<i32>, failed_cb: Option<i32>, retries: usize) -> Run {
        Run {
            transfer: Some(Transfer::new(success_cb, failed_cb, retries, 250_000_000)),
            stats: HttpStats::new(),
            budget: BodyBudget::new(),
        }
    }

    fn on(&mut self, event: Event) -> Action {
        let transfer = self.transfer.take().expect("the request is there");
        let (transfer, action) = transfer.step(&mut self.stats, &mut self.budget, event);
        self.transfer = Some(transfer);
        action
    }

    fn send(&mut self) {
        assert!(matches!(self.on(Event::Proceed), Action::AcquirePermit));
        assert!(matches!(self.on(Event::PermitReady), Action::Send));
    }

    fn receive(&mut self, status: u16) -> Action {
        self.on(Event::Response {
            status,
            headers: HeaderMap::new(),
        })
    }

    fn buffered(&self) -> usize {
        self.transfer
            .as_ref()
            .expect("the request is there")
            .buffered()
    }

    fn counts(&self) -> (u64, u64, u64, u64) {
        let now: StatsSnapshot = self.stats.snapshot();
        (now.succeeded, now.failed, now.retried, now.cancelled)
    }
}

fn broken(transient: bool) -> Event {
    Event::SendFailed {
        transient,
        message: "connection refused".to_string(),
    }
}

fn failure(action: Action) -> (i32, String) {
    match action {
        Action::Finish(tasks) => {
            assert_eq!(tasks.len(), 2);
            assert!(matches!(tasks[1], CallbackTask::DropRef(SUCCESS)));
            match &tasks[0] {
                CallbackTask::Failed(callback, message) => (*callback, message.clone()),
                other => panic!("no failure: {:?}", other),
            }
        }
        other => panic!("the request goes on: {:?}", other),
    }
}

fn pause(action: Action) -> u64 {
    match action {
        Action::Sleep(nanos) => nanos,
        other => panic!("no pause: {:?}", other),
    }
}

#[test]
fn response_arrives_whole() {
    let mut run = Run::new(0);
    run.send();
    let mut headers = HeaderMap::new();
    headers.insert("x-id", HeaderValue::from_static("7"));
    assert!(matches!(
        run.on(Event::Response {
            status: 201,
            headers
        }),
        Action::ReadChunk
    ));
    assert!(matches!(
        run.on(Event::Chunk(b"hel".to_vec())),
        Action::ReadChunk
    ));
    assert!(matches!(run.on(Event::Chunk(vec![])), Action::ReadChunk));
    assert!(matches!(
        run.on(Event::Chunk(b"lo".to_vec())),
        Action::ReadChunk
    ));
    assert_eq!(run.buffered(), 5);
    assert_eq!(run.budget.used(), 5);
    match run.on(Event::StreamEnded) {
        Action::Finish(tasks) => {
            assert_eq!(tasks.len(), 2);
            match &tasks[0] {
                CallbackTask::Success(callback, status, body, headers) => {
                    assert_eq!(*callback, SUCCESS);
                    assert_eq!(*status, 201);
                    assert_eq!(body, b"hello");
                    assert_eq!(headers.get("x-id").map(|v| v.as_bytes()), Some(&b"7"[..]));
                }
                other => panic!("no success: {:?}", other),
            }
            assert!(matches!(tasks[1], CallbackTask::DropRef(FAILED)));
        }
        other => panic!("the request goes on: {:?}", other),
    }
    assert_eq!(run.counts(), (1, 0, 0, 0));
    assert_eq!(run.buffered(), 0);
    assert_eq!(run.budget.used(), 5);
}

#[test]
fn every_status_without_retries_is_a_response() {
    for status in [200, 204, 301, 404, 408, 429, 500, 503, 599] {
        let mut run = Run::new(0);
        run.send();
        assert!(matches!(run.receive(status), Action::ReadChunk));
        assert!(matches!(run.on(Event::StreamEnded), Action::Finish(_)));
        assert_eq!(run.counts(), (1, 0, 0, 0));
    }
}

#[test]
fn permanent_status_is_not_retried() {
    let mut run = Run::new(5);
    run.send();
    assert!(matches!(run.receive(404), Action::ReadChunk));
    assert_eq!(run.counts(), (0, 0, 0, 0));
}

#[test]
fn transient_statuses_are_retried_with_growing_pauses() {
    let mut run = Run::new(2);
    run.send();
    assert_eq!(pause(run.receive(503)), 250_000_000);
    assert!(matches!(run.on(Event::PauseOver), Action::CheckCancelled));
    run.send();
    assert_eq!(pause(run.receive(429)), 500_000_000);
    assert!(matches!(run.on(Event::PauseOver), Action::CheckCancelled));
    run.send();
    assert!(matches!(run.receive(503), Action::ReadChunk));
    match run.on(Event::StreamEnded) {
        Action::Finish(tasks) => {
            assert!(matches!(
                tasks[0],
                CallbackTask::Success(SUCCESS, 503, _, _)
            ));
        }
        other => panic!("the request goes on: {:?}", other),
    }
    assert_eq!(run.counts(), (1, 0, 2, 0));
}

#[test]
fn pause_follows_retry_after() {
    let mut run = Run::new(1);
    run.send();
    let mut headers = HeaderMap::new();
    headers.insert(RETRY_AFTER, HeaderValue::from_static("4"));
    let action = run.on(Event::Response {
        status: 429,
        headers,
    });
    assert_eq!(pause(action), 4_000_000_000);
}

#[test]
fn transient_failures_are_retried_until_none_are_left() {
    let mut run = Run::new(1);
    run.send();
    assert_eq!(pause(run.on(broken(true))), 250_000_000);
    assert!(matches!(run.on(Event::PauseOver), Action::CheckCancelled));
    run.send();
    assert_eq!(
        failure(run.on(broken(true))),
        (FAILED, "connection refused".to_string())
    );
    assert_eq!(run.counts(), (0, 1, 1, 0));
}

#[test]
fn permanent_failures_are_not_retried() {
    let mut run = Run::new(5);
    run.send();
    assert_eq!(
        failure(run.on(broken(false))),
        (FAILED, "connection refused".to_string())
    );
    assert_eq!(run.counts(), (0, 1, 0, 0));
}

#[test]
fn sends_are_limited_by_the_retries() {
    let mut run = Run::new(5);
    let mut sends = 0;
    loop {
        run.send();
        sends += 1;
        match run.on(broken(true)) {
            Action::Sleep(_) => {
                run.on(Event::PauseOver);
            }
            action => {
                failure(action);
                break;
            }
        }
    }
    assert_eq!(sends, 6);
    assert_eq!(run.counts(), (0, 1, 5, 0));
}

#[test]
fn cancellation_ends_a_request_wherever_it_is() {
    let stages: [fn(&mut Run); 5] = [
        |_| {},
        |run| {
            run.on(Event::Proceed);
        },
        |run| run.send(),
        |run| {
            run.send();
            run.on(broken(true));
        },
        |run| {
            run.send();
            run.receive(200);
            run.on(Event::Chunk(vec![1, 2, 3]));
        },
    ];
    for stage in stages {
        let mut run = Run::new(1);
        stage(&mut run);
        assert_eq!(
            failure(run.on(Event::Cancelled)),
            (FAILED, "Request cancelled".to_string())
        );
        assert_eq!(run.stats.snapshot().cancelled, 1);
        assert_eq!(run.stats.snapshot().failed, 0);
        assert_eq!(run.budget.used(), 0);
    }
}

#[test]
fn request_ends_once() {
    let mut run = Run::new(1);
    run.send();
    run.receive(200);
    run.on(Event::StreamEnded);
    for event in [
        Event::Cancelled,
        Event::Proceed,
        Event::PermitReady,
        broken(true),
        Event::PauseOver,
        Event::Chunk(vec![1]),
        Event::StreamFailed("late".to_string()),
        Event::StreamEnded,
    ] {
        assert!(matches!(run.on(event), Action::Ignore));
    }
    assert!(matches!(run.receive(500), Action::Ignore));
    assert_eq!(run.counts(), (1, 0, 0, 0));
    assert_eq!(run.budget.used(), 0);
}

#[test]
fn events_out_of_turn_are_ignored() {
    let mut run = Run::new(1);
    assert!(matches!(run.on(Event::PermitReady), Action::Ignore));
    assert!(matches!(run.on(Event::StreamEnded), Action::Ignore));
    assert!(matches!(run.on(Event::Chunk(vec![1])), Action::Ignore));
    assert!(matches!(run.on(Event::Proceed), Action::AcquirePermit));
    assert!(matches!(run.on(Event::Proceed), Action::Ignore));
    assert!(matches!(run.on(Event::PermitReady), Action::Send));
    assert!(matches!(run.on(Event::PauseOver), Action::Ignore));
    assert!(matches!(
        run.on(Event::StreamFailed("early".to_string())),
        Action::Ignore
    ));
    assert!(matches!(run.receive(200), Action::ReadChunk));
    assert!(matches!(run.on(broken(true)), Action::Ignore));
    assert_eq!(run.counts(), (0, 0, 0, 0));
}

#[test]
fn broken_stream_fails_the_request() {
    let mut run = Run::new(5);
    run.send();
    run.receive(200);
    run.on(Event::Chunk(vec![0; 100]));
    assert_eq!(run.budget.used(), 100);
    assert_eq!(
        failure(run.on(Event::StreamFailed("reset by peer".to_string()))),
        (FAILED, "Stream error: reset by peer".to_string())
    );
    assert_eq!(run.counts(), (0, 1, 0, 0));
    assert_eq!(run.budget.used(), 0);
}

#[test]
fn response_body_size_is_limited() {
    let mut run = Run::new(0);
    run.send();
    run.receive(200);
    assert!(matches!(
        run.on(Event::Chunk(vec![0; 20_971_520])),
        Action::ReadChunk
    ));
    assert_eq!(
        failure(run.on(Event::Chunk(vec![0]))),
        (FAILED, "Response body exceeded memory limit".to_string())
    );
    assert_eq!(run.counts(), (0, 1, 0, 0));
    assert_eq!(run.budget.used(), 0);
}

#[test]
fn buffered_bodies_are_limited_over_all_requests() {
    let mut run = Run::new(0);
    assert!(run.budget.try_reserve(67_108_864 - 10));
    run.send();
    run.receive(200);
    assert!(matches!(
        run.on(Event::Chunk(vec![0; 10])),
        Action::ReadChunk
    ));
    assert_eq!(
        failure(run.on(Event::Chunk(vec![0]))),
        (FAILED, "rhttp buffered body limit reached".to_string())
    );
    assert_eq!(run.counts(), (0, 1, 0, 0));
    assert_eq!(run.budget.used(), 67_108_854);
}

#[test]
fn body_without_a_callback_is_counted_and_not_kept() {
    let mut run = Run::with(None, Some(FAILED), 0);
    run.send();
    run.receive(200);
    assert!(matches!(
        run.on(Event::Chunk(vec![0; 20_971_520])),
        Action::ReadChunk
    ));
    assert_eq!(run.buffered(), 0);
    assert_eq!(run.budget.used(), 0);
    match run.on(Event::Chunk(vec![0])) {
        Action::Finish(tasks) => {
            assert_eq!(tasks.len(), 1);
            match &tasks[0] {
                CallbackTask::Failed(FAILED, message) => {
                    assert_eq!(message, "Response body exceeded memory limit");
                }
                other => panic!("no failure: {:?}", other),
            }
        }
        other => panic!("the request goes on: {:?}", other),
    }
}

#[test]
fn request_without_callbacks_has_no_tasks() {
    let mut run = Run::with(None, None, 0);
    run.send();
    run.receive(200);
    match run.on(Event::StreamEnded) {
        Action::Finish(tasks) => assert!(tasks.is_empty()),
        other => panic!("the request goes on: {:?}", other),
    }
    assert_eq!(run.counts(), (1, 0, 0, 0));
}
