//! The shared state of a running client.

use tokio_util::sync::CancellationToken;
use vstd::prelude::*;

use crate::budget::BodyBudget;
use crate::error::{RequestError, RequestErrorView};
use crate::limits::{MAX_BUFFERED_BODY, MAX_IN_FLIGHT_REQUESTS};
use crate::registry::{own_token, RegisteredRequest, RequestRegistry};
use crate::stats::{
    bumped, left, started, zero_stats, HttpStats, InFlightRequest, StatsSnapshot,
};

verus! {

/// What the requests of a running client share.
pub struct WorkerResources {
    /// The counters.
    pub stats: HttpStats,
    /// The live requests.
    pub requests: RequestRegistry,
    /// The buffered bodies.
    pub budget: BodyBudget,
}

/// What a [`WorkerResources`] holds.
pub struct WorkerView {
    /// The counters.
    pub stats: StatsSnapshot,
    /// The live requests, by number.
    pub requests: Map<u64, CancellationToken>,
    /// The number of the next request.
    pub next_id: u64,
    /// The tokens of the requests that were cancelled, live or not.
    pub cancelled: Set<CancellationToken>,
    /// The body bytes that are buffered.
    pub buffered: nat,
}

impl View for WorkerResources {
    type V = WorkerView;

    open spec fn view(&self) -> WorkerView {
        WorkerView {
            stats: self.stats@,
            requests: self.requests@.requests,
            next_id: self.requests@.next_id,
            cancelled: self.requests@.cancelled,
            buffered: self.budget@,
        }
    }
}

/// A client that has just been started.
pub open spec fn fresh_worker() -> WorkerView {
    WorkerView {
        stats: zero_stats(),
        requests: Map::empty(),
        next_id: 1,
        cancelled: Set::empty(),
        buffered: 0,
    }
}

/// A request that was let in: its place among the requests in flight, its entry
/// in the registry, and the room for its body.
#[derive(Debug)]
pub struct AcceptedRequest {
    request: RegisteredRequest,
    place: InFlightRequest,
    reserved: usize,
}

impl AcceptedRequest {
    /// The number of the request.
    pub closed spec fn id(&self) -> u64 {
        self.request.id
    }

    /// The token that tells the request that it was cancelled.
    pub closed spec fn token(&self) -> CancellationToken {
        self.request.token
    }

    /// The body bytes that were set aside for the request.
    pub closed spec fn reserved(&self) -> nat {
        self.reserved as nat
    }

    /// The entry of the request in the registry.
    pub fn request(&self) -> (request: &RegisteredRequest)
        ensures
            request.id == self.id(),
            request.token == self.token(),
    {
        &self.request
    }

    /// How many body bytes were set aside for the request.
    pub fn reserved_bytes(&self) -> (bytes: usize)
        ensures
            bytes == self.reserved(),
    {
        self.reserved
    }
}

/// Why a request with a body of this size is not let in, if it is not: as many
/// requests are in flight as can be, or the buffers have no room for its body.
pub open spec fn refusal(worker: WorkerView, body_size: nat) -> Option<RequestErrorView> {
    if worker.stats.in_flight >= MAX_IN_FLIGHT_REQUESTS {
        Some(RequestErrorView::QueueFull)
    } else if worker.buffered + body_size > MAX_BUFFERED_BODY {
        Some(RequestErrorView::BufferFull)
    } else {
        None
    }
}

/// The client after it let a request in.
pub open spec fn accepted(
    worker: WorkerView,
    body_size: nat,
    token: CancellationToken,
) -> WorkerView {
    WorkerView {
        stats: started(worker.stats),
        requests: worker.requests.insert(worker.next_id, token),
        next_id: bumped(worker.next_id),
        buffered: worker.buffered + body_size,
        ..worker
    }
}

/// The client after a request has left it.
pub open spec fn completed(worker: WorkerView, id: u64, reserved: nat) -> WorkerView {
    WorkerView {
        stats: left(worker.stats),
        requests: worker.requests.remove(id),
        buffered: (worker.buffered - reserved) as nat,
        ..worker
    }
}

impl WorkerResources {
    /// The shared state of a client that starts.
    pub fn new() -> (worker: Self)
        ensures
            worker@ == fresh_worker(),
            worker.requests@.numbers_are_used(),
            worker.requests@.tokens_differ(),
    {
        WorkerResources {
            stats: HttpStats::new(),
            requests: RequestRegistry::new(),
            budget: BodyBudget::new(),
        }
    }

    /// Lets a request with a body of this size in, or says why not; then
    /// nothing has changed.
    pub fn accept(&mut self, body_size: usize) -> (result: Result<AcceptedRequest, RequestError>)
        ensures
            match result {
                Ok(entry) => {
                    &&& refusal(old(self)@, body_size as nat) is None
                    &&& entry.id() == old(self)@.next_id
                    &&& entry.reserved() == body_size
                    &&& own_token(
                        old(self)@.requests,
                        old(self)@.cancelled,
                        entry.token(),
                    )
                    &&& final(self)@ == accepted(
                        old(self)@,
                        body_size as nat,
                        entry.token(),
                    )
                },
                Err(error) => {
                    &&& refusal(old(self)@, body_size as nat) == Some(error@)
                    &&& final(self)@ == old(self)@
                },
            },
            old(self).requests@.numbers_are_used() && old(self)@.next_id < u64::MAX
                ==> final(self).requests@.numbers_are_used(),
            old(self).requests@.tokens_differ() ==> final(self).requests@.tokens_differ(),
    {
        if self.stats.snapshot().in_flight >= MAX_IN_FLIGHT_REQUESTS {
            return Err(RequestError::QueueFull);
        }
        if !self.budget.try_reserve(body_size) {
            return Err(RequestError::BufferFull);
        }
        match self.stats.try_request_started() {
            Some(place) => {
                let request = self.requests.register();
                Ok(AcceptedRequest { request, place, reserved: body_size })
            },
            None => {
                self.budget.release(body_size);
                Err(RequestError::QueueFull)
            },
        }
    }

    /// Lets go of what a request was given, now that it is over.
    pub fn complete(&mut self, entry: AcceptedRequest)
        requires
            old(self)@.stats.in_flight > 0,
            entry.reserved() <= old(self)@.buffered,
        ensures
            final(self)@ == completed(old(self)@, entry.id(), entry.reserved()),
            old(self).requests@.numbers_are_used() ==> final(self).requests@.numbers_are_used(),
            old(self).requests@.tokens_differ() ==> final(self).requests@.tokens_differ(),
    {
        self.requests.finish(entry.request.id);
        self.stats.request_finished(entry.place);
        self.budget.release(entry.reserved);
    }

    /// Gives back the room of a response body that was delivered.
    pub fn delivered(&mut self, bytes: usize)
        requires
            bytes <= old(self)@.buffered,
        ensures
            final(self)@ == (WorkerView {
                buffered: (old(self)@.buffered - bytes) as nat,
                ..old(self)@
            }),
    {
        self.budget.release(bytes);
    }

    /// Cancels every request, as the client stops.
    pub fn shutdown(&mut self)
        ensures
            final(self)@ == (WorkerView {
                requests: Map::empty(),
                cancelled: old(self)@.cancelled.union(old(self)@.requests.values()),
                ..old(self)@
            }),
    {
        self.requests.cancel_all();
    }
}

/// Lets a request with a body of this size into a client, which may not be
/// running, or says why not.
pub fn submit(worker: Option<&mut WorkerResources>, body_size: usize) -> (result: Result<
    AcceptedRequest,
    RequestError,
>)
    ensures
        worker is None ==> (result matches Err(RequestError::NotInitialized)),
        worker is Some ==> match result {
            Ok(entry) => {
                &&& refusal(old(worker->0)@, body_size as nat) is None
                &&& entry.id() == old(worker->0)@.next_id
                &&& entry.reserved() == body_size
                &&& own_token(
                    old(worker->0)@.requests,
                    old(worker->0)@.cancelled,
                    entry.token(),
                )
                &&& final(worker->0)@ == accepted(
                    old(worker->0)@,
                    body_size as nat,
                    entry.token(),
                )
            },
            Err(error) => {
                &&& refusal(old(worker->0)@, body_size as nat) == Some(error@)
                &&& final(worker->0)@ == old(worker->0)@
            },
        },
        worker is Some && old(worker->0).requests@.numbers_are_used() && old(worker->0)@.next_id
            < u64::MAX ==> final(worker->0).requests@.numbers_are_used(),
        worker is Some && old(worker->0).requests@.tokens_differ()
            ==> final(worker->0).requests@.tokens_differ(),
{
    match worker {
        Some(worker) => worker.accept(body_size),
        None => Err(RequestError::NotInitialized),
    }
}

/// The counters of a client; all zero if it is not running.
pub fn stats(worker: Option<&WorkerResources>) -> (snapshot: StatsSnapshot)
    ensures
        snapshot == (match worker {
            Some(worker) => worker@.stats,
            None => zero_stats(),
        }),
        snapshot.in_flight <= MAX_IN_FLIGHT_REQUESTS,
{
    match worker {
        Some(worker) => worker.stats.snapshot(),
        None => StatsSnapshot::default(),
    }
}

/// The client after the request of this number was cancelled, if there is one.
pub open spec fn cancelling(worker: WorkerView, id: u64) -> WorkerView {
    if worker.requests.contains_key(id) {
        WorkerView { cancelled: worker.cancelled.insert(worker.requests[id]), ..worker }
    } else {
        worker
    }
}

/// Cancels a request of a client, and no other; `false` if the client is not
/// running or has no such request.
pub fn cancel_request(worker: Option<&mut WorkerResources>, id: u64) -> (found: bool)
    ensures
        worker is None ==> !found,
        worker is Some ==> {
            &&& found == old(worker->0)@.requests.contains_key(id)
            &&& final(worker->0)@ == cancelling(old(worker->0)@, id)
        },
{
    match worker {
        Some(worker) => worker.requests.cancel(id),
        None => false,
    }
}

/// The number of the request that a script number names.
pub fn request_id(number: i64) -> (id: u64)
    ensures
        id == (if number < 0 {
            0
        } else {
            number as int
        }),
{
    if number < 0 {
        0
    } else {
        number as u64
    }
}

/// A request that is let in and leaves again gives back everything but its
/// number and its mark in the count of admitted requests.
pub proof fn law_accept_then_complete(
    worker: WorkerView,
    body_size: nat,
    token: CancellationToken,
)
    requires
        refusal(worker, body_size) is None,
        !worker.requests.contains_key(worker.next_id),
    ensures
        completed(accepted(worker, body_size, token), worker.next_id, body_size) == (WorkerView {
            stats: StatsSnapshot { submitted: bumped(worker.stats.submitted), ..worker.stats },
            next_id: bumped(worker.next_id),
            ..worker
        }),
{
    assert(worker.requests.insert(worker.next_id, token).remove(worker.next_id)
        =~= worker.requests);
}

/// A request can be cancelled from when it is let in until it leaves, whatever
/// happens to other requests in between, and not afterwards.
pub proof fn law_cancellable_while_live(
    worker: WorkerView,
    body_size: nat,
    token: CancellationToken,
    other: u64,
    other_reserved: nat,
    reserved: nat,
)
    requires
        other != worker.next_id,
    ensures
        accepted(worker, body_size, token).requests.contains_key(worker.next_id),
        completed(
            accepted(worker, body_size, token),
            other,
            other_reserved,
        ).requests.contains_key(worker.next_id),
        !completed(
            accepted(worker, body_size, token),
            worker.next_id,
            reserved,
        ).requests.contains_key(worker.next_id),
{
}

/// A request is let in exactly where fewer than 1024 are in flight and its body
/// fits into 64 MB with all that is buffered; a full queue is told before full
/// buffers.
pub proof fn law_who_is_let_in(worker: WorkerView, body_size: nat)
    ensures
        refusal(worker, body_size) is None <==> worker.stats.in_flight < 1024 && worker.buffered
            + body_size <= 67_108_864,
        worker.stats.in_flight >= 1024 ==> refusal(worker, body_size) == Some(
            RequestErrorView::QueueFull,
        ),
        worker.stats.in_flight < 1024 && worker.buffered + body_size > 67_108_864 ==> refusal(
            worker,
            body_size,
        ) == Some(RequestErrorView::BufferFull),
{
}

/// A request that is let in is in flight, can be cancelled under the next number
/// by its own token, and has its body buffered; nothing else changes.
pub proof fn law_what_letting_in_changes(
    worker: WorkerView,
    body_size: nat,
    token: CancellationToken,
)
    requires
        worker.stats.in_flight < 1024,
        worker.next_id < u64::MAX,
        worker.stats.submitted < u64::MAX,
    ensures
        ({
            let then = accepted(worker, body_size, token);
            &&& then.stats == (StatsSnapshot {
                submitted: (worker.stats.submitted + 1) as u64,
                in_flight: (worker.stats.in_flight + 1) as u64,
                ..worker.stats
            })
            &&& then.requests == worker.requests.insert(worker.next_id, token)
            &&& then.next_id - worker.next_id == 1
            &&& then.cancelled == worker.cancelled
            &&& then.buffered - worker.buffered == body_size
        }),
{
}

/// A request that leaves is no longer in flight, can no longer be cancelled, and
/// has its body no longer buffered; nothing else changes.
pub proof fn law_what_leaving_changes(worker: WorkerView, id: u64, reserved: nat)
    requires
        worker.stats.in_flight > 0,
        reserved <= worker.buffered,
    ensures
        ({
            let then = completed(worker, id, reserved);
            &&& then.stats == (StatsSnapshot {
                in_flight: (worker.stats.in_flight - 1) as u64,
                ..worker.stats
            })
            &&& then.requests == worker.requests.remove(id)
            &&& then.next_id == worker.next_id
            &&& then.cancelled == worker.cancelled
            &&& worker.buffered - then.buffered == reserved
        }),
{
}

/// Cancelling by number sets the flag of that request and of no other, and changes
/// nothing else; a number of no request changes nothing.
pub proof fn law_what_cancelling_changes(worker: WorkerView, id: u64)
    ensures
        ({
            let then = cancelling(worker, id);
            &&& then.stats == worker.stats
            &&& then.requests == worker.requests
            &&& then.next_id == worker.next_id
            &&& then.buffered == worker.buffered
            &&& forall|token: CancellationToken| #[trigger]
                then.cancelled.contains(token) <==> worker.cancelled.contains(token) || (
                worker.requests.contains_key(id) && worker.requests[id] == token)
        }),
{
}

/// A client that starts has nothing in flight, nothing counted and nothing
/// buffered, and numbers its requests from one.
pub proof fn law_start_is_empty()
    ensures
        ({
            let worker = fresh_worker();
            &&& worker.stats.submitted == 0 && worker.stats.in_flight == 0
            &&& worker.stats.succeeded == 0 && worker.stats.failed == 0
            &&& worker.stats.retried == 0 && worker.stats.cancelled == 0
            &&& forall|id: u64| !#[trigger] worker.requests.contains_key(id)
            &&& forall|token: CancellationToken| !#[trigger] worker.cancelled.contains(token)
            &&& worker.next_id == 1
            &&& worker.buffered == 0
        }),
{
}

/// The view of a client is what its parts hold.
pub proof fn law_view_of_client(worker: WorkerResources)
    ensures
        worker@.stats == worker.stats@,
        worker@.requests == worker.requests@.requests,
        worker@.next_id == worker.requests@.next_id,
        worker@.cancelled == worker.requests@.cancelled,
        worker@.buffered == worker.budget@,
{
}

} // verus!
