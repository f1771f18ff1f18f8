//! The live requests and the tokens that cancel them.

use std::collections::HashMap;

use tokio_util::sync::CancellationToken;
use vstd::prelude::*;

use crate::stats::bumped;
use crate::token::{cancel_token, flag_takes, fresh_token, token_is_cancelled, CancelRecord};

verus! {

broadcast use vstd::std_specs::hash::group_hash_axioms;

/// A request in the registry: its number and its handle on the flag that
/// cancels it.
#[derive(Debug)]
pub struct RegisteredRequest {
    /// The number that cancels the request.
    pub id: u64,
    /// The token that tells the request that it was cancelled.
    pub token: CancellationToken,
}

impl RegisteredRequest {
    /// Whether the request was cancelled by now. A request that its registry
    /// cancelled reads so from then on.
    pub fn is_cancelled(&self, registry: &RequestRegistry) -> (cancelled: bool)
        ensures
            flag_takes(self.token, cancelled),
            registry@.cancelled.contains(self.token) ==> cancelled,
    {
        token_is_cancelled(&self.token, &registry.record)
    }
}

/// A token with a flag of its own: one that starts unset, that no request among
/// these has, and that was not cancelled.
pub open spec fn own_token(
    requests: Map<u64, CancellationToken>,
    cancelled: Set<CancellationToken>,
    token: CancellationToken,
) -> bool {
    &&& flag_takes(token, false)
    &&& forall|id: u64| #[trigger] requests.contains_key(id) ==> requests[id] != token
    &&& !cancelled.contains(token)
}

/// The requests that can be cancelled, by number.
pub struct RequestRegistry {
    next_id: u64,
    requests: HashMap<u64, CancellationToken>,
    record: CancelRecord,
}

/// What a [`RequestRegistry`] holds.
#[verifier::ext_equal]
pub struct RegistryView {
    /// The requests, by number.
    pub requests: Map<u64, CancellationToken>,
    /// The number that the next request gets.
    pub next_id: u64,
    /// The tokens of the requests that were cancelled, live or not.
    pub cancelled: Set<CancellationToken>,
}

impl View for RequestRegistry {
    type V = RegistryView;

    closed spec fn view(&self) -> RegistryView {
        RegistryView {
            requests: self.requests@,
            next_id: self.next_id,
            cancelled: self.record@,
        }
    }
}

/// A registry without requests, before the first one.
pub open spec fn empty_registry() -> RegistryView {
    RegistryView { requests: Map::empty(), next_id: 1, cancelled: Set::empty() }
}

impl RegistryView {
    /// Every number in the registry was handed out earlier, so that the next
    /// one is new; and no number is zero. This holds of a new registry and is
    /// kept by every method, until the numbers run out.
    pub open spec fn numbers_are_used(self) -> bool {
        &&& 0 < self.next_id
        &&& forall|id: u64| #[trigger] self.requests.contains_key(id) ==> 0 < id < self.next_id
    }

    /// No two requests share a token. This holds of a new registry and is kept
    /// by every method.
    pub open spec fn tokens_differ(self) -> bool {
        forall|a: u64, b: u64|
            #![trigger self.requests.contains_key(a), self.requests.contains_key(b)]
            self.requests.contains_key(a) && self.requests.contains_key(b) && a != b
                ==> self.requests[a] != self.requests[b]
    }

    /// The registry after a request was added.
    pub open spec fn with_request(self, token: CancellationToken) -> RegistryView {
        RegistryView {
            requests: self.requests.insert(self.next_id, token),
            next_id: bumped(self.next_id),
            ..self
        }
    }

    /// The registry after a request has left.
    pub open spec fn without(self, id: u64) -> RegistryView {
        RegistryView { requests: self.requests.remove(id), ..self }
    }

    /// The registry after the request of this number was cancelled, if there is
    /// one.
    pub open spec fn cancelling(self, id: u64) -> RegistryView {
        if self.requests.contains_key(id) {
            RegistryView { cancelled: self.cancelled.insert(self.requests[id]), ..self }
        } else {
            self
        }
    }

    /// The registry after all requests were cancelled and have left.
    pub open spec fn emptied(self) -> RegistryView {
        RegistryView {
            requests: Map::empty(),
            cancelled: self.cancelled.union(self.requests.values()),
            ..self
        }
    }
}

impl RequestRegistry {
    /// A registry without requests. Numbers start at one.
    pub fn new() -> (registry: Self)
        ensures
            registry@ == empty_registry(),
            registry@.numbers_are_used(),
            registry@.tokens_differ(),
    {
        RequestRegistry { next_id: 1, requests: HashMap::new(), record: CancelRecord::new() }
    }

    /// Adds a request under the next number, with a token of its own. It is not
    /// cancelled, nor is any other on its account.
    pub fn register(&mut self) -> (request: RegisteredRequest)
        ensures
            request.id == old(self)@.next_id,
            final(self)@ == old(self)@.with_request(request.token),
            flag_takes(request.token, false),
            forall|id: u64| #[trigger]
                old(self)@.requests.contains_key(id) ==> old(self)@.requests[id] != request.token,
            !final(self)@.cancelled.contains(request.token),
            old(self)@.numbers_are_used() ==> request.id > 0
                && !old(self)@.requests.contains_key(request.id),
            old(self)@.numbers_are_used() && old(self)@.next_id < u64::MAX
                ==> final(self)@.numbers_are_used(),
            old(self)@.tokens_differ() ==> final(self)@.tokens_differ(),
    {
        let id: u64 = self.next_id;
        let token = fresh_token(&self.requests, &self.record);
        self.next_id = id.wrapping_add(1);
        self.requests.insert(id, token.clone());
        RegisteredRequest { id, token }
    }

    /// Removes a request that has ended. This cancels nothing.
    pub fn finish(&mut self, id: u64)
        ensures
            final(self)@ == old(self)@.without(id),
            old(self)@.numbers_are_used() ==> final(self)@.numbers_are_used(),
            old(self)@.tokens_differ() ==> final(self)@.tokens_differ(),
    {
        self.requests.remove(&id);
    }

    /// Cancels a request, and no other; `false` if there is none under this
    /// number. The request stays in the registry until it has ended.
    pub fn cancel(&mut self, id: u64) -> (found: bool)
        ensures
            found == old(self)@.requests.contains_key(id),
            final(self)@ == old(self)@.cancelling(id),
    {
        match self.requests.get(&id) {
            Some(token) => {
                cancel_token(token, &mut self.record);
                true
            },
            None => false,
        }
    }

    /// Cancels every request and empties the registry. Requests that had left
    /// before are not cancelled.
    pub fn cancel_all(&mut self)
        ensures
            final(self)@ == old(self)@.emptied(),
            old(self)@.numbers_are_used() ==> final(self)@.numbers_are_used(),
            final(self)@.tokens_differ(),
    {
        let ghost listed = vstd::std_specs::iter::IteratorSpec::remaining(
            &vstd::std_specs::hash::spec_hash_map_iter(&self.requests),
        );
        for entry in entries: self.requests.iter()
            invariant
                entries.seq() == listed,
                self.requests == old(self).requests,
                self.next_id == old(self).next_id,
                forall|token: CancellationToken| #[trigger]
                    self.record@.contains(token) <==> old(self).record@.contains(token) || exists|
                        i: int,
                    | 0 <= i < entries.index() && *(#[trigger] listed[i]).1 == token,
        {
            cancel_token(entry.1, &mut self.record);
        }
        proof {
            let live = old(self)@.requests;
            assert forall|token: CancellationToken| #[trigger]
                self.record@.contains(token) <==> old(self)@.emptied().cancelled.contains(token) by {
                if live.values().contains(token) {
                    let id = choose|id: u64| #[trigger] live.contains_key(id) && live[id] == token;
                    assert(listed.contains((&id, &live[id])));
                }
                if exists|i: int| 0 <= i < listed.len() && *(#[trigger] listed[i]).1 == token {
                    let i = choose|i: int|
                        0 <= i < listed.len() && *(#[trigger] listed[i]).1 == token;
                    assert(listed.contains(listed[i]));
                    assert(live.contains_key(*listed[i].0));
                }
            }
            assert(self.record@ =~= old(self)@.emptied().cancelled);
        }
        self.requests.clear();
    }
}

/// What is done to a registry.
pub enum RegistryCall {
    /// A request is added, with this token.
    Register(CancellationToken),
    /// The request of this number leaves.
    Finish(u64),
    /// The request of this number is cancelled.
    Cancel(u64),
    /// All requests are cancelled and leave.
    CancelAll,
}

/// A new registry after all calls.
pub open spec fn after_calls(calls: Seq<RegistryCall>) -> RegistryView
    decreases calls.len(),
{
    if calls.len() == 0 {
        empty_registry()
    } else {
        let before = after_calls(calls.drop_last());
        match calls.last() {
            RegistryCall::Register(token) => before.with_request(token),
            RegistryCall::Finish(id) => before.without(id),
            RegistryCall::Cancel(id) => before.cancelling(id),
            RegistryCall::CancelAll => before.emptied(),
        }
    }
}

/// How many of the calls add a request.
pub open spec fn registrations(calls: Seq<RegistryCall>) -> nat
    decreases calls.len(),
{
    if calls.len() == 0 {
        0
    } else {
        registrations(calls.drop_last()) + if calls.last() is Register {
            1nat
        } else {
            0nat
        }
    }
}

/// Every request that the calls add has a token of its own.
pub open spec fn own_tokens(calls: Seq<RegistryCall>) -> bool
    decreases calls.len(),
{
    calls.len() > 0 ==> {
        &&& own_tokens(calls.drop_last())
        &&& calls.last() matches RegistryCall::Register(token) ==> own_token(
            after_calls(calls.drop_last()).requests,
            after_calls(calls.drop_last()).cancelled,
            token,
        )
    }
}

/// Requests are numbered from one in the order in which they are added, whatever
/// happens in between: no number is zero, comes twice or is given again. No two
/// requests that are live share a token.
pub proof fn law_numbers_count_up(calls: Seq<RegistryCall>)
    requires
        registrations(calls) < u64::MAX,
        own_tokens(calls),
    ensures
        after_calls(calls).next_id == registrations(calls) + 1,
        after_calls(calls).numbers_are_used(),
        after_calls(calls).tokens_differ(),
    decreases calls.len(),
{
    if calls.len() > 0 {
        law_numbers_count_up(calls.drop_last());
    }
}

/// Zero is the number of no request.
pub proof fn law_zero_is_no_request(registry: RegistryView)
    requires
        registry.numbers_are_used(),
    ensures
        !registry.requests.contains_key(0),
{
}

/// Cancelling one of two requests is for that one alone: it is cancelled, the
/// other is not, and both can be cancelled as before.
pub proof fn law_cancel_reaches_one(registry: RegistryView, id: u64, other: u64)
    requires
        registry.tokens_differ(),
        registry.requests.contains_key(id),
        registry.requests.contains_key(other),
        id != other,
    ensures
        ({
            let then = registry.cancelling(id);
            &&& then.requests == registry.requests
            &&& then.next_id == registry.next_id
            &&& then.cancelled.contains(registry.requests[id])
            &&& then.cancelled.contains(registry.requests[other]) == registry.cancelled.contains(
                registry.requests[other],
            )
            &&& then.cancelling(id) == then
        }),
{
    assert(registry.cancelling(id).cancelling(id).cancelled =~= registry.cancelling(id).cancelled);
}

/// A number that is in no request cancels nothing.
pub proof fn law_unknown_number_cancels_nothing(registry: RegistryView, id: u64)
    requires
        !registry.requests.contains_key(id),
    ensures
        registry.cancelling(id) == registry,
{
}

/// A request that was cancelled stays so, whatever happens afterwards.
pub proof fn law_cancelled_stays(calls: Seq<RegistryCall>, n: int)
    requires
        0 <= n <= calls.len(),
    ensures
        after_calls(calls.take(n)).cancelled.subset_of(after_calls(calls).cancelled),
    decreases calls.len() - n,
{
    if n < calls.len() {
        law_cancelled_stays(calls, n + 1);
        assert(calls.take(n + 1).drop_last() =~= calls.take(n));
    } else {
        assert(calls.take(n) =~= calls);
    }
}

/// A request that has left cannot be cancelled, any other can as before, no flag
/// is touched, and leaving twice is leaving once.
pub proof fn law_finish_is_final(registry: RegistryView, id: u64)
    ensures
        !registry.without(id).requests.contains_key(id),
        registry.without(id).cancelled == registry.cancelled,
        registry.without(id).without(id) == registry.without(id),
        forall|other: u64|
            other != id ==> {
                &&& #[trigger] registry.without(id).requests.contains_key(other)
                    == registry.requests.contains_key(other)
                &&& registry.without(id).requests[other] == registry.requests[other]
            },
        !registry.requests.contains_key(id) ==> registry.without(id) == registry,
{
    assert(registry.without(id).without(id).requests =~= registry.without(id).requests);
    if !registry.requests.contains_key(id) {
        assert(registry.without(id).requests =~= registry.requests);
    }
}

/// A request that is added is found under the next number with its token; every
/// other entry and every flag stays as it was, and the next number goes up by one.
pub proof fn law_register_adds_one(registry: RegistryView, token: CancellationToken)
    requires
        registry.next_id < u64::MAX,
    ensures
        ({
            let then = registry.with_request(token);
            &&& then.requests.contains_key(registry.next_id)
            &&& then.requests[registry.next_id] == token
            &&& then.next_id - registry.next_id == 1
            &&& then.cancelled == registry.cancelled
            &&& forall|id: u64|
                id != registry.next_id ==> {
                    &&& #[trigger] then.requests.contains_key(id) == registry.requests.contains_key(
                        id,
                    )
                    &&& then.requests[id] == registry.requests[id]
                }
        }),
{
}

/// Cancelling all requests leaves none, cancels the token of each that was live
/// and no other, and does not give a number again.
pub proof fn law_cancel_all_reaches_the_live(registry: RegistryView)
    ensures
        ({
            let then = registry.emptied();
            &&& forall|id: u64| !#[trigger] then.requests.contains_key(id)
            &&& then.next_id == registry.next_id
            &&& forall|token: CancellationToken| #[trigger]
                then.cancelled.contains(token) <==> registry.cancelled.contains(token) || exists|
                    id: u64,
                | #[trigger]
                    registry.requests.contains_key(id) && registry.requests[id] == token
        }),
{
}

} // verus!
