//! What holds of a client and all its requests, in whatever order things happen
//! to them.
//!
//! A history is a sequence of deeds, each done to a client with any number of
//! requests on their way. A request that is cancelled hears of it as an event
//! later on.

use tokio_util::sync::CancellationToken;
use vstd::prelude::*;

use crate::limits::{MAX_BUFFERED_BODY, MAX_IN_FLIGHT_REQUESTS};
use crate::registry::own_token;
use crate::stats::StatsSnapshot;
use crate::transfer::{counted, next, EventView, TransferView};
use crate::transfer_laws::{law_buffered_bytes_are_accounted, law_step_keeps_request, passed_on};
use crate::worker::{accepted, cancelling, completed, fresh_worker, refusal, WorkerView};

verus! {

/// A request that was let in and has not left.
pub struct LiveRequest {
    /// Its number.
    pub id: u64,
    /// Its token.
    pub token: CancellationToken,
    /// The bytes that were set aside for the body that it sends.
    pub reserved: nat,
    /// Whether it was cancelled.
    pub cancelled: bool,
    /// How far it is.
    pub transfer: TransferView,
}

/// A client with its requests.
pub struct World {
    /// The client.
    pub worker: WorkerView,
    /// The requests that were let in and have not left, in that order.
    pub live: Seq<LiveRequest>,
    /// The response bytes that wait to be delivered.
    pub waiting: nat,
}

/// What is done.
pub enum Deed {
    /// A request asks to be let in.
    Accept {
        /// The size of the body that it sends.
        body_size: nat,
        /// The token that it gets.
        token: CancellationToken,
        /// The request, before its first attempt.
        transfer: TransferView,
    },
    /// Something happens to the request at this place.
    Step {
        /// The place of the request among the live ones.
        at: int,
        /// What happens.
        event: EventView,
    },
    /// A request is cancelled by its number, which may be that of none.
    Cancel {
        /// The number.
        id: u64,
    },
    /// The request at this place leaves.
    Leave {
        /// The place of the request among the live ones.
        at: int,
    },
    /// A response is delivered.
    Deliver {
        /// The size of its body.
        bytes: nat,
    },
}

/// What can be done: a request that comes is at its beginning and has a token of
/// its own, one that leaves is over, and what is delivered was waiting.
pub open spec fn possible(world: World, deed: Deed) -> bool {
    match deed {
        Deed::Accept { token, transfer, .. } => {
            &&& transfer.phase is Ready
            &&& transfer.attempt == 0
            &&& own_token(world.worker.requests, world.worker.cancelled, token)
        },
        Deed::Step { at, .. } => 0 <= at < world.live.len(),
        Deed::Cancel { .. } => true,
        Deed::Leave { at } => 0 <= at < world.live.len() && world.live[at].transfer.phase
            is Finished,
        Deed::Deliver { bytes } => bytes <= world.waiting,
    }
}

/// The client and its requests after a deed.
pub open spec fn done(world: World, deed: Deed) -> World {
    match deed {
        Deed::Accept { body_size, token, transfer } => if refusal(world.worker, body_size) is Some {
            world
        } else {
            World {
                worker: accepted(world.worker, body_size, token),
                live: world.live.push(
                    LiveRequest {
                        id: world.worker.next_id,
                        token,
                        reserved: body_size,
                        cancelled: false,
                        transfer,
                    },
                ),
                waiting: world.waiting,
            }
        },
        Deed::Step { at, event } => {
            let step = next(world.live[at].transfer, world.worker.buffered, event);
            World {
                worker: WorkerView {
                    stats: counted(world.worker.stats, step.tally),
                    buffered: step.used,
                    ..world.worker
                },
                live: world.live.update(
                    at,
                    LiveRequest { transfer: step.transfer, ..world.live[at] },
                ),
                waiting: world.waiting + passed_on(step.action),
            }
        },
        Deed::Cancel { id } => World {
            worker: cancelling(world.worker, id),
            live: Seq::new(
                world.live.len(),
                |i: int|
                    LiveRequest {
                        cancelled: world.live[i].cancelled || world.live[i].id == id,
                        ..world.live[i]
                    },
            ),
            waiting: world.waiting,
        },
        Deed::Leave { at } => World {
            worker: completed(world.worker, world.live[at].id, world.live[at].reserved),
            live: world.live.remove(at),
            waiting: world.waiting,
        },
        Deed::Deliver { bytes } => World {
            worker: WorkerView {
                buffered: (world.worker.buffered - bytes) as nat,
                ..world.worker
            },
            live: world.live,
            waiting: (world.waiting - bytes) as nat,
        },
    }
}

/// A client that has just been started.
pub open spec fn fresh_world() -> World {
    World { worker: fresh_worker(), live: Seq::empty(), waiting: 0 }
}

/// A client that was started, after all deeds.
pub open spec fn reached(deeds: Seq<Deed>) -> World
    decreases deeds.len(),
{
    if deeds.len() == 0 {
        fresh_world()
    } else {
        done(reached(deeds.drop_last()), deeds.last())
    }
}

/// Each deed is possible when it is done.
pub open spec fn all_possible(deeds: Seq<Deed>) -> bool
    decreases deeds.len(),
{
    deeds.len() > 0 ==> {
        &&& all_possible(deeds.drop_last())
        &&& possible(reached(deeds.drop_last()), deeds.last())
    }
}

/// The bytes that a request has set aside, for what it sends and of what it gets.
pub open spec fn request_bytes(request: LiveRequest) -> nat {
    request.reserved + request.transfer.buffered()
}

/// The bytes that requests have set aside.
pub open spec fn all_bytes(live: Seq<LiveRequest>) -> nat
    decreases live.len(),
{
    if live.len() == 0 {
        0
    } else {
        all_bytes(live.drop_last()) + request_bytes(live.last())
    }
}

/// How many of the requests are over.
pub open spec fn ended(live: Seq<LiveRequest>) -> nat
    decreases live.len(),
{
    if live.len() == 0 {
        0
    } else {
        ended(live.drop_last()) + if live.last().transfer.phase is Finished {
            1nat
        } else {
            0nat
        }
    }
}

/// How many requests were counted by how they ended.
pub open spec fn ends(stats: StatsSnapshot) -> int {
    stats.succeeded + stats.failed + stats.cancelled
}

/// The books of a client agree with its requests.
pub open spec fn books_agree(world: World) -> bool {
    let stats = world.worker.stats;
    &&& stats.in_flight == world.live.len()
    &&& stats.in_flight <= MAX_IN_FLIGHT_REQUESTS
    &&& ends(stats) == stats.submitted - world.live.len() + ended(world.live)
    &&& world.worker.buffered == all_bytes(world.live) + world.waiting
    &&& world.worker.buffered <= MAX_BUFFERED_BODY
    &&& world.worker.next_id == stats.submitted + 1
    &&& forall|i: int| 0 <= i < world.live.len() ==> (#[trigger] world.live[i]).transfer.well_formed()
}

/// The requests that can be cancelled are the live ones, each by its own number
/// and its own token, and those whose token was cancelled are those that were
/// cancelled.
pub open spec fn registry_agrees(world: World) -> bool {
    let requests = world.worker.requests;
    &&& forall|i: int|
        0 <= i < world.live.len() ==> {
            let request = #[trigger] world.live[i];
            &&& 0 < request.id < world.worker.next_id
            &&& requests.contains_key(request.id)
            &&& requests[request.id] == request.token
            &&& world.worker.cancelled.contains(request.token) == request.cancelled
        }
    &&& forall|i: int, j: int|
        0 <= i < j < world.live.len() ==> {
            &&& (#[trigger] world.live[i]).id != (#[trigger] world.live[j]).id
            &&& world.live[i].token != world.live[j].token
        }
    &&& forall|id: u64| #[trigger]
        requests.contains_key(id) ==> exists|i: int|
            0 <= i < world.live.len() && (#[trigger] world.live[i]).id == id
}

proof fn lemma_update(live: Seq<LiveRequest>, at: int, request: LiveRequest)
    requires
        0 <= at < live.len(),
    ensures
        all_bytes(live.update(at, request)) == all_bytes(live) - request_bytes(live[at])
            + request_bytes(request),
        ended(live.update(at, request)) == ended(live) - ended(seq![live[at]]) + ended(
            seq![request],
        ),
    decreases live.len(),
{
    let then = live.update(at, request);
    reveal_with_fuel(ended, 2);
    assert(seq![live[at]].drop_last() =~= Seq::empty());
    assert(seq![request].drop_last() =~= Seq::empty());
    if at == live.len() - 1 {
        assert(then.drop_last() =~= live.drop_last());
    } else {
        assert(then.drop_last() =~= live.drop_last().update(at, request));
        lemma_update(live.drop_last(), at, request);
    }
}

proof fn lemma_same_books(live: Seq<LiveRequest>, then: Seq<LiveRequest>)
    requires
        live.len() == then.len(),
        forall|i: int|
            0 <= i < live.len() ==> {
                &&& (#[trigger] then[i]).reserved == live[i].reserved
                &&& then[i].transfer == live[i].transfer
            },
    ensures
        all_bytes(then) == all_bytes(live),
        ended(then) == ended(live),
    decreases live.len(),
{
    if live.len() > 0 {
        lemma_same_books(live.drop_last(), then.drop_last());
    }
}

proof fn lemma_remove(live: Seq<LiveRequest>, at: int)
    requires
        0 <= at < live.len(),
    ensures
        all_bytes(live.remove(at)) == all_bytes(live) - request_bytes(live[at]),
        ended(live.remove(at)) == ended(live) - ended(seq![live[at]]),
    decreases live.len(),
{
    let then = live.remove(at);
    reveal_with_fuel(ended, 2);
    assert(seq![live[at]].drop_last() =~= Seq::empty());
    if at == live.len() - 1 {
        assert(then =~= live.drop_last());
    } else {
        assert(then.drop_last() =~= live.drop_last().remove(at));
        lemma_remove(live.drop_last(), at);
    }
}

proof fn lemma_one_of_all(live: Seq<LiveRequest>, at: int)
    requires
        0 <= at < live.len(),
    ensures
        request_bytes(live[at]) <= all_bytes(live),
        ended(live) <= live.len(),
    decreases live.len(),
{
    reveal_with_fuel(ended, 2);
    if at < live.len() - 1 {
        lemma_one_of_all(live.drop_last(), at);
    } else if live.len() > 1 {
        lemma_one_of_all(live.drop_last(), 0);
    }
}

/// While fewer deeds than a counter can count are done, the books of a client
/// agree with its requests: the requests in flight are those that were let in and
/// have not left; every request that was let in is live or has left, and each one
/// that is over, and no other, is counted by how it ended; and the bytes that are
/// buffered are those that the requests have set aside and those that wait.
pub proof fn law_books_agree(deeds: Seq<Deed>)
    requires
        all_possible(deeds),
        deeds.len() < u64::MAX,
    ensures
        books_agree(reached(deeds)),
        reached(deeds).worker.stats.submitted <= deeds.len(),
    decreases deeds.len(),
{
    if deeds.len() > 0 {
        law_books_agree(deeds.drop_last());
        lemma_deed_keeps_books(reached(deeds.drop_last()), deeds.last());
    }
}

proof fn lemma_deed_keeps_books(world: World, deed: Deed)
    requires
        books_agree(world),
        possible(world, deed),
        world.worker.stats.submitted < u64::MAX - 1,
    ensures
        books_agree(done(world, deed)),
        done(world, deed).worker.stats.submitted <= world.worker.stats.submitted + 1,
{
    let then = done(world, deed);
    if world.live.len() > 0 {
        lemma_one_of_all(world.live, 0);
    }
    match deed {
        Deed::Accept { body_size, .. } => {
            if refusal(world.worker, body_size) is None {
                assert(then.live.drop_last() =~= world.live);
            }
        },
        Deed::Step { at, event } => {
            let transfer = world.live[at].transfer;
            let used = world.worker.buffered;
            lemma_one_of_all(world.live, at);
            lemma_update(world.live, at, then.live[at]);
            reveal_with_fuel(ended, 2);
            law_step_keeps_request(transfer, used, event);
            law_buffered_bytes_are_accounted(transfer, used, event);
        },
        Deed::Cancel { .. } => {
            lemma_same_books(world.live, then.live);
        },
        Deed::Leave { at } => {
            lemma_one_of_all(world.live, at);
            lemma_remove(world.live, at);
            reveal_with_fuel(ended, 2);
        },
        Deed::Deliver { .. } => {},
    }
}

/// While fewer deeds than a counter can count are done, the requests that can be
/// cancelled are exactly the live ones: each by a number that no other has and
/// that is not zero, and each with a token that no other has. The token of a live
/// request was cancelled if and only if the request was, by its own number.
pub proof fn law_registry_agrees(deeds: Seq<Deed>)
    requires
        all_possible(deeds),
        deeds.len() < u64::MAX,
    ensures
        registry_agrees(reached(deeds)),
    decreases deeds.len(),
{
    if deeds.len() > 0 {
        law_registry_agrees(deeds.drop_last());
        law_books_agree(deeds.drop_last());
        lemma_deed_keeps_registry(reached(deeds.drop_last()), deeds.last());
    }
}

proof fn lemma_deed_keeps_registry(world: World, deed: Deed)
    requires
        registry_agrees(world),
        books_agree(world),
        possible(world, deed),
        world.worker.stats.submitted < u64::MAX - 1,
    ensures
        registry_agrees(done(world, deed)),
{
    let then = done(world, deed);
    match deed {
        Deed::Accept { body_size, .. } => {
            if refusal(world.worker, body_size) is None {
                let last = world.live.len() as int;
                assert(then.live[last].id == world.worker.next_id);
                assert forall|i: int| 0 <= i < last implies #[trigger] then.live[i]
                    == world.live[i] by {}
                assert forall|id: u64| #[trigger]
                    then.worker.requests.contains_key(id) implies exists|i: int|
                    0 <= i < then.live.len() && (#[trigger] then.live[i]).id == id by {
                    if id == world.worker.next_id {
                        assert(then.live[last].id == id);
                    } else {
                        assert(world.worker.requests.contains_key(id));
                        let i = choose|i: int|
                            0 <= i < world.live.len() && (#[trigger] world.live[i]).id == id;
                        assert(then.live[i].id == id);
                    }
                }
            }
        },
        Deed::Step { .. } => {
            assert forall|i: int| 0 <= i < world.live.len() implies {
                &&& (#[trigger] then.live[i]).id == world.live[i].id
                &&& then.live[i].token == world.live[i].token
            } by {}
            assert forall|id: u64| #[trigger]
                then.worker.requests.contains_key(id) implies exists|i: int|
                0 <= i < then.live.len() && (#[trigger] then.live[i]).id == id by {
                let i = choose|i: int|
                    0 <= i < world.live.len() && (#[trigger] world.live[i]).id == id;
                assert(then.live[i].id == id);
            }
        },
        Deed::Cancel { id } => {
            assert forall|i: int| 0 <= i < world.live.len() implies {
                let request = #[trigger] then.live[i];
                &&& request.id == world.live[i].id
                &&& request.token == world.live[i].token
                &&& then.worker.cancelled.contains(request.token) == request.cancelled
            } by {
                if world.worker.requests.contains_key(id) {
                    let k = choose|k: int|
                        0 <= k < world.live.len() && (#[trigger] world.live[k]).id == id;
                    assert(world.live[k].token == world.worker.requests[id]);
                    if k < i {
                        assert(world.live[k].token != world.live[i].token);
                    } else if i < k {
                        assert(world.live[i].token != world.live[k].token);
                    }
                } else {
                    assert(world.live[i].id != id);
                }
            }
            assert forall|number: u64| #[trigger]
                then.worker.requests.contains_key(number) implies exists|i: int|
                0 <= i < then.live.len() && (#[trigger] then.live[i]).id == number by {
                let i = choose|i: int|
                    0 <= i < world.live.len() && (#[trigger] world.live[i]).id == number;
                assert(then.live[i].id == number);
            }
        },
        Deed::Leave { at } => {
            let gone = world.live[at].id;
            assert forall|i: int| 0 <= i < then.live.len() implies #[trigger] then.live[i] == (
            if i < at {
                world.live[i]
            } else {
                world.live[i + 1]
            }) by {}
            assert forall|id: u64| #[trigger]
                then.worker.requests.contains_key(id) implies exists|i: int|
                0 <= i < then.live.len() && (#[trigger] then.live[i]).id == id by {
                assert(world.worker.requests.contains_key(id) && id != gone);
                let i = choose|i: int|
                    0 <= i < world.live.len() && (#[trigger] world.live[i]).id == id;
                if i < at {
                    assert(then.live[i].id == id);
                } else {
                    assert(then.live[i - 1].id == id);
                }
            }
        },
        Deed::Deliver { .. } => {},
    }
}

/// Whoever holds a live request can go on with it and can give it back: a request
/// is in flight, and at least the bytes that it has set aside are buffered.
pub proof fn law_live_request_can_go_on(world: World, at: int)
    requires
        books_agree(world),
        0 <= at < world.live.len(),
    ensures
        world.worker.stats.in_flight > 0,
        world.live[at].reserved <= world.worker.buffered,
        world.live[at].transfer.buffered() <= world.worker.buffered,
{
    lemma_one_of_all(world.live, at);
}

/// When no request is in flight, every request that was ever let in is counted
/// once, by how it ended, and only responses that wait are buffered.
pub proof fn law_idle_books_balance(world: World)
    requires
        books_agree(world),
        world.worker.stats.in_flight == 0,
    ensures
        ({
            let stats = world.worker.stats;
            stats.submitted == stats.succeeded + stats.failed + stats.cancelled
        }),
        world.worker.buffered == world.waiting,
{
}

} // verus!
