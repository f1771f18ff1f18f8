//! The request counters and the limit on requests in flight.

use vstd::prelude::*;

use crate::limits::MAX_IN_FLIGHT_REQUESTS;

verus! {

/// The counters of a client at one moment.
#[derive(Clone, Copy, PartialEq, Eq, Structural, Debug)]
pub struct StatsSnapshot {
    /// Requests that were admitted.
    pub submitted: u64,
    /// Requests that were admitted and have not ended.
    pub in_flight: u64,
    /// Requests that ended with a whole response.
    pub succeeded: u64,
    /// Requests that ended with an error.
    pub failed: u64,
    /// Attempts that were followed by another attempt.
    pub retried: u64,
    /// Requests that ended because they were cancelled.
    pub cancelled: u64,
}

/// All counters at zero.
pub open spec fn zero_stats() -> StatsSnapshot {
    StatsSnapshot {
        submitted: 0,
        in_flight: 0,
        succeeded: 0,
        failed: 0,
        retried: 0,
        cancelled: 0,
    }
}

impl Default for StatsSnapshot {
    fn default() -> (snapshot: Self)
        ensures
            snapshot == zero_stats(),
    {
        StatsSnapshot {
            submitted: 0,
            in_flight: 0,
            succeeded: 0,
            failed: 0,
            retried: 0,
            cancelled: 0,
        }
    }
}

/// What a request adds to the counters when something happens to it.
#[derive(Clone, Copy, PartialEq, Eq, Structural, Debug)]
pub enum Tally {
    /// The request ended with a whole response.
    Succeeded,
    /// The request ended with an error.
    Failed,
    /// The request goes on to another attempt.
    Retried,
    /// The request was cancelled.
    Cancelled,
}

/// A counter after one more event; like the atomic counters of the platform
/// it starts again at zero after its largest value.
pub open spec fn bumped(count: u64) -> u64 {
    if count == u64::MAX {
        0
    } else {
        (count + 1) as u64
    }
}

/// The counters after `tally` was counted.
pub open spec fn tallied(stats: StatsSnapshot, tally: Tally) -> StatsSnapshot {
    match tally {
        Tally::Succeeded => StatsSnapshot { succeeded: bumped(stats.succeeded), ..stats },
        Tally::Failed => StatsSnapshot { failed: bumped(stats.failed), ..stats },
        Tally::Retried => StatsSnapshot { retried: bumped(stats.retried), ..stats },
        Tally::Cancelled => StatsSnapshot { cancelled: bumped(stats.cancelled), ..stats },
    }
}

/// The counters after a request was admitted.
pub open spec fn started(stats: StatsSnapshot) -> StatsSnapshot {
    StatsSnapshot {
        submitted: bumped(stats.submitted),
        in_flight: (stats.in_flight + 1) as u64,
        ..stats
    }
}

/// The counters after an admitted request has left.
pub open spec fn left(stats: StatsSnapshot) -> StatsSnapshot {
    StatsSnapshot { in_flight: (stats.in_flight - 1) as u64, ..stats }
}

/// The place of one admitted request. It is handed out by
/// [`HttpStats::try_request_started`] alone and given back to
/// [`HttpStats::request_finished`].
#[derive(Debug)]
pub struct InFlightRequest {
    _private: (),
}

/// The live counters of a client.
#[derive(Debug)]
pub struct HttpStats {
    submitted: u64,
    in_flight: u64,
    succeeded: u64,
    failed: u64,
    retried: u64,
    cancelled: u64,
}

impl View for HttpStats {
    type V = StatsSnapshot;

    closed spec fn view(&self) -> StatsSnapshot {
        StatsSnapshot {
            submitted: self.submitted,
            in_flight: self.in_flight,
            succeeded: self.succeeded,
            failed: self.failed,
            retried: self.retried,
            cancelled: self.cancelled,
        }
    }
}

impl HttpStats {
    /// No more requests are in flight than the limit allows.
    #[verifier::type_invariant]
    spec fn within_limit(self) -> bool {
        self.in_flight <= MAX_IN_FLIGHT_REQUESTS
    }

    /// Counters at zero.
    pub fn new() -> (stats: Self)
        ensures
            stats@ == zero_stats(),
    {
        HttpStats {
            submitted: 0,
            in_flight: 0,
            succeeded: 0,
            failed: 0,
            retried: 0,
            cancelled: 0,
        }
    }

    /// Admits a request, unless the limit on requests in flight is reached.
    pub fn try_request_started(&mut self) -> (admitted: Option<InFlightRequest>)
        ensures
            old(self)@.in_flight <= MAX_IN_FLIGHT_REQUESTS,
            final(self)@.in_flight <= MAX_IN_FLIGHT_REQUESTS,
            admitted is Some <==> old(self)@.in_flight < MAX_IN_FLIGHT_REQUESTS,
            admitted is Some ==> final(self)@ == started(old(self)@),
            admitted is None ==> final(self)@ == old(self)@,
    {
        proof {
            use_type_invariant(&*self);
        }
        if self.in_flight >= MAX_IN_FLIGHT_REQUESTS {
            return None;
        }
        self.in_flight = self.in_flight + 1;
        self.submitted = self.submitted.wrapping_add(1);
        Some(InFlightRequest { _private: () })
    }

    /// Takes back the place of a request that has ended.
    pub fn request_finished(&mut self, request: InFlightRequest)
        requires
            old(self)@.in_flight > 0,
        ensures
            final(self)@ == left(old(self)@),
            final(self)@.in_flight < MAX_IN_FLIGHT_REQUESTS,
    {
        proof {
            use_type_invariant(&*self);
        }
        self.in_flight = self.in_flight - 1;
    }

    /// Counts a request that ended with a whole response.
    pub fn succeeded(&mut self)
        ensures
            final(self)@ == tallied(old(self)@, Tally::Succeeded),
    {
        proof {
            use_type_invariant(&*self);
        }
        self.succeeded = self.succeeded.wrapping_add(1);
    }

    /// Counts a request that ended with an error.
    pub fn failed(&mut self)
        ensures
            final(self)@ == tallied(old(self)@, Tally::Failed),
    {
        proof {
            use_type_invariant(&*self);
        }
        self.failed = self.failed.wrapping_add(1);
    }

    /// Counts an attempt that is followed by another one.
    pub fn retried(&mut self)
        ensures
            final(self)@ == tallied(old(self)@, Tally::Retried),
    {
        proof {
            use_type_invariant(&*self);
        }
        self.retried = self.retried.wrapping_add(1);
    }

    /// Counts a request that was cancelled.
    pub fn cancelled(&mut self)
        ensures
            final(self)@ == tallied(old(self)@, Tally::Cancelled),
    {
        proof {
            use_type_invariant(&*self);
        }
        self.cancelled = self.cancelled.wrapping_add(1);
    }

    /// The counters as they are now.
    pub fn snapshot(&self) -> (snapshot: StatsSnapshot)
        ensures
            snapshot == self@,
            snapshot.in_flight <= MAX_IN_FLIGHT_REQUESTS,
    {
        proof {
            use_type_invariant(self);
        }
        StatsSnapshot {
            submitted: self.submitted,
            in_flight: self.in_flight,
            succeeded: self.succeeded,
            failed: self.failed,
            retried: self.retried,
            cancelled: self.cancelled,
        }
    }
}

/// A request that is admitted and then leaves moves only the count of
/// admitted requests.
pub proof fn law_start_then_finish(stats: StatsSnapshot)
    requires
        stats.in_flight < MAX_IN_FLIGHT_REQUESTS,
    ensures
        left(started(stats)) == (StatsSnapshot { submitted: bumped(stats.submitted), ..stats }),
{
}

/// Counting an event never changes how many requests are in flight or were
/// admitted.
pub proof fn law_tally_keeps_admission(stats: StatsSnapshot, tally: Tally)
    ensures
        tallied(stats, tally).in_flight == stats.in_flight,
        tallied(stats, tally).submitted == stats.submitted,
{
}

/// The admitted requests that are neither in flight nor counted by how they
/// ended.
pub open spec fn unaccounted(stats: StatsSnapshot) -> int {
    stats.submitted - stats.in_flight - stats.succeeded - stats.failed - stats.cancelled
}

/// What each step of a request does to the books, as long as no counter starts
/// again at zero and however many other requests there are: its start and its
/// retries keep them, its end takes it out of them, and its leaving brings them
/// back.
pub proof fn law_counters_balance(stats: StatsSnapshot, end: Tally)
    requires
        stats.submitted < u64::MAX,
        stats.succeeded < u64::MAX,
        stats.failed < u64::MAX,
        stats.cancelled < u64::MAX,
        end != Tally::Retried,
    ensures
        unaccounted(zero_stats()) == 0,
        stats.in_flight < MAX_IN_FLIGHT_REQUESTS ==> unaccounted(started(stats)) == unaccounted(
            stats,
        ),
        unaccounted(tallied(stats, Tally::Retried)) == unaccounted(stats),
        unaccounted(tallied(stats, end)) == unaccounted(stats) - 1,
        stats.in_flight > 0 ==> unaccounted(left(stats)) == unaccounted(stats) + 1,
{
}

/// What is done to the counters.
pub enum StatsCall {
    /// A request asks for a place.
    Start,
    /// A place is given back.
    Finish,
    /// An event is counted.
    Count(Tally),
}

/// New counters after all calls.
pub open spec fn stats_after(calls: Seq<StatsCall>) -> StatsSnapshot
    decreases calls.len(),
{
    if calls.len() == 0 {
        zero_stats()
    } else {
        let before = stats_after(calls.drop_last());
        match calls.last() {
            StatsCall::Start => if before.in_flight < MAX_IN_FLIGHT_REQUESTS {
                started(before)
            } else {
                before
            },
            StatsCall::Finish => left(before),
            StatsCall::Count(tally) => tallied(before, tally),
        }
    }
}

/// How many places the calls hand out.
pub open spec fn places_given(calls: Seq<StatsCall>) -> nat
    decreases calls.len(),
{
    if calls.len() == 0 {
        0
    } else {
        let admitted = calls.last() is Start && stats_after(calls.drop_last()).in_flight
            < MAX_IN_FLIGHT_REQUESTS;
        places_given(calls.drop_last()) + if admitted {
            1nat
        } else {
            0nat
        }
    }
}

/// How many places the calls give back.
pub open spec fn places_returned(calls: Seq<StatsCall>) -> nat
    decreases calls.len(),
{
    if calls.len() == 0 {
        0
    } else {
        places_returned(calls.drop_last()) + if calls.last() is Finish {
            1nat
        } else {
            0nat
        }
    }
}

/// Every place that the calls give back was out.
pub open spec fn returns_are_owed(calls: Seq<StatsCall>) -> bool
    decreases calls.len(),
{
    calls.len() > 0 ==> {
        &&& returns_are_owed(calls.drop_last())
        &&& calls.last() is Finish ==> places_returned(calls.drop_last()) < places_given(
            calls.drop_last(),
        )
    }
}

/// The requests in flight are the places that were handed out and not given back,
/// in whatever order that happened, and never more than the limit; and the count
/// of admitted requests is that of the places handed out. So while a place is
/// out, a request is in flight.
pub proof fn law_in_flight_is_places_out(calls: Seq<StatsCall>)
    requires
        returns_are_owed(calls),
        calls.len() <= u64::MAX,
    ensures
        stats_after(calls).in_flight == places_given(calls) - places_returned(calls),
        stats_after(calls).in_flight <= MAX_IN_FLIGHT_REQUESTS,
        stats_after(calls).submitted == places_given(calls),
        places_given(calls) <= calls.len(),
    decreases calls.len(),
{
    if calls.len() > 0 {
        law_in_flight_is_places_out(calls.drop_last());
    }
}

/// A place that is given back while no place was free leaves exactly one free.
pub proof fn law_full_then_one_free(stats: StatsSnapshot)
    requires
        stats.in_flight == MAX_IN_FLIGHT_REQUESTS,
    ensures
        left(stats).in_flight < MAX_IN_FLIGHT_REQUESTS,
        started(left(stats)).in_flight == MAX_IN_FLIGHT_REQUESTS,
{
}

/// Each event moves its own counter by one and no other: the counter is one
/// higher, or starts again at zero where it had its largest value.
pub proof fn law_event_moves_its_counter(stats: StatsSnapshot, tally: Tally)
    ensures
        ({
            let then = tallied(stats, tally);
            &&& then.submitted == stats.submitted
            &&& then.in_flight == stats.in_flight
            &&& tally != Tally::Succeeded ==> then.succeeded == stats.succeeded
            &&& tally != Tally::Failed ==> then.failed == stats.failed
            &&& tally != Tally::Retried ==> then.retried == stats.retried
            &&& tally != Tally::Cancelled ==> then.cancelled == stats.cancelled
            &&& tally == Tally::Succeeded ==> then.succeeded - stats.succeeded == 1
                || then.succeeded == 0 && stats.succeeded == u64::MAX
            &&& tally == Tally::Failed ==> then.failed - stats.failed == 1 || then.failed == 0
                && stats.failed == u64::MAX
            &&& tally == Tally::Retried ==> then.retried - stats.retried == 1 || then.retried == 0
                && stats.retried == u64::MAX
            &&& tally == Tally::Cancelled ==> then.cancelled - stats.cancelled == 1
                || then.cancelled == 0 && stats.cancelled == u64::MAX
        }),
{
}

/// A request that is admitted makes one more in flight and one more admitted; one
/// that leaves makes one less in flight. No end and no retry is counted by either.
pub proof fn law_places_are_counted(stats: StatsSnapshot)
    ensures
        ({
            let then = started(stats);
            &&& stats.in_flight < 1024 ==> then.in_flight - stats.in_flight == 1
            &&& then.submitted - stats.submitted == 1 || then.submitted == 0 && stats.submitted
                == u64::MAX
            &&& then.succeeded == stats.succeeded
            &&& then.failed == stats.failed
            &&& then.retried == stats.retried
            &&& then.cancelled == stats.cancelled
        }),
        ({
            let then = left(stats);
            &&& stats.in_flight > 0 ==> stats.in_flight - then.in_flight == 1
            &&& then.submitted == stats.submitted
            &&& then.succeeded == stats.succeeded
            &&& then.failed == stats.failed
            &&& then.retried == stats.retried
            &&& then.cancelled == stats.cancelled
        }),
{
}

} // verus!
