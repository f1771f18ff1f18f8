//! What holds of a request over its whole way, whatever happens to it.
//!
//! A way is a sequence of events, each with the number of body bytes that were
//! buffered over all requests when it came: other requests may change that
//! number in between.

use vstd::arithmetic::power2::pow2;
use vstd::prelude::*;

use crate::callback::{
    failure_report, held, law_failure_releases_callbacks, law_success_releases_callbacks,
    released, success_report, tasks_bytes, tasks_view,
};
use crate::headers::header_contents;
use crate::limits::{MAX_BODY_SIZE, MAX_BUFFERED_BODY};
use crate::retry::{is_transient, law_pause_is_as_asked, law_transient_statuses, retry_after};
use crate::stats::{tallied, StatsSnapshot, Tally};
use crate::transfer::{
    counted, next, Action, ActionView, Event, EventView, PhaseView, StepView, TransferView,
};

verus! {

/// The request after all events.
pub open spec fn after(transfer: TransferView, way: Seq<(nat, EventView)>) -> TransferView
    decreases way.len(),
{
    if way.len() == 0 {
        transfer
    } else {
        next(after(transfer, way.drop_last()), way.last().0, way.last().1).transfer
    }
}

/// How often the events counted `tally`.
pub open spec fn tally_count(
    transfer: TransferView,
    way: Seq<(nat, EventView)>,
    tally: Tally,
) -> nat
    decreases way.len(),
{
    if way.len() == 0 {
        0
    } else {
        let step = next(after(transfer, way.drop_last()), way.last().0, way.last().1);
        tally_count(transfer, way.drop_last(), tally) + if step.tally == Some(tally) {
            1nat
        } else {
            0nat
        }
    }
}

/// How often the request was sent.
pub open spec fn send_count(transfer: TransferView, way: Seq<(nat, EventView)>) -> nat
    decreases way.len(),
{
    if way.len() == 0 {
        0
    } else {
        let step = next(after(transfer, way.drop_last()), way.last().0, way.last().1);
        send_count(transfer, way.drop_last()) + if step.action is Send {
            1nat
        } else {
            0nat
        }
    }
}

/// How often the request handed tasks to the script side.
pub open spec fn finish_count(transfer: TransferView, way: Seq<(nat, EventView)>) -> nat
    decreases way.len(),
{
    if way.len() == 0 {
        0
    } else {
        let step = next(after(transfer, way.drop_last()), way.last().0, way.last().1);
        finish_count(transfer, way.drop_last()) + if step.action is Finish {
            1nat
        } else {
            0nat
        }
    }
}

/// No event breaks what holds of every request, nor changes its callbacks, its
/// limit on retries or its base pause.
pub proof fn law_step_keeps_request(transfer: TransferView, used: nat, event: EventView)
    requires
        transfer.well_formed(),
    ensures
        ({
            let then = next(transfer, used, event).transfer;
            &&& then.well_formed()
            &&& then.success_cb == transfer.success_cb
            &&& then.failed_cb == transfer.failed_cb
            &&& then.retries == transfer.retries
            &&& then.retry_delay == transfer.retry_delay
        }),
{
}

/// A request that is over stays as it is.
pub proof fn law_finished_is_final(transfer: TransferView, used: nat, event: EventView)
    requires
        transfer.phase is Finished,
    ensures
        next(transfer, used, event) == (StepView {
            transfer,
            action: ActionView::Ignore,
            tally: None,
            used,
        }),
{
}

/// A request ends once: it counts one success, failure or cancellation, and
/// hands tasks to the script side, when it is over and not before. Every retry
/// is counted.
pub proof fn law_one_end(transfer: TransferView, way: Seq<(nat, EventView)>)
    requires
        !(transfer.phase is Finished),
    ensures
        ({
            let ends = tally_count(transfer, way, Tally::Succeeded) + tally_count(
                transfer,
                way,
                Tally::Failed,
            ) + tally_count(transfer, way, Tally::Cancelled);
            &&& ends == (if after(transfer, way).phase is Finished {
                1nat
            } else {
                0nat
            })
            &&& finish_count(transfer, way) == ends
        }),
        after(transfer, way).attempt == transfer.attempt + tally_count(
            transfer,
            way,
            Tally::Retried,
        ),
    decreases way.len(),
{
    if way.len() > 0 {
        law_one_end(transfer, way.drop_last());
    }
}

proof fn lemma_sends(transfer: TransferView, way: Seq<(nat, EventView)>)
    requires
        transfer.well_formed(),
        transfer.phase is Ready,
    ensures
        ({
            let then = after(transfer, way);
            &&& then.well_formed()
            &&& then.retries == transfer.retries
            &&& then.attempt >= transfer.attempt
            &&& send_count(transfer, way) <= then.attempt - transfer.attempt + 1
            &&& then.phase is Ready || then.phase is Queued || then.phase is Waiting ==> send_count(
                transfer,
                way,
            ) <= then.attempt - transfer.attempt
        }),
    decreases way.len(),
{
    if way.len() > 0 {
        lemma_sends(transfer, way.drop_last());
    }
}

/// A request is sent once, and then once more for every retry that it has, at
/// most.
pub proof fn law_sends_are_limited(transfer: TransferView, way: Seq<(nat, EventView)>)
    requires
        transfer.well_formed(),
        transfer.phase is Ready,
        transfer.attempt == 0,
    ensures
        send_count(transfer, way) <= transfer.retries + 1,
        tally_count(transfer, way, Tally::Retried) <= transfer.retries,
        after(transfer, way).well_formed(),
{
    lemma_sends(transfer, way);
    law_one_end(transfer, way);
}

/// What the tasks of a request that ends release and keep buffered.
proof fn lemma_finish_tasks(transfer: TransferView, used: nat, event: EventView)
    ensures
        next(transfer, used, event).action matches ActionView::Finish(tasks) ==> {
            &&& released(tasks) == held(transfer.success_cb, transfer.failed_cb)
            &&& tasks_bytes(tasks) == (if event is StreamEnded && transfer.success_cb is Some {
                transfer.buffered()
            } else {
                0
            })
        },
{
    let (success, failed) = (transfer.success_cb, transfer.failed_cb);
    match (transfer.phase, event) {
        (PhaseView::Receiving { status, headers, body, .. }, EventView::StreamEnded) => {
            law_success_releases_callbacks(success, failed, status, body, headers);
        },
        (_, EventView::Cancelled) => {
            law_failure_releases_callbacks(success, failed, "Request cancelled"@);
        },
        (_, EventView::SendFailed { message, .. }) => {
            law_failure_releases_callbacks(success, failed, message);
        },
        (_, EventView::StreamFailed(message)) => {
            law_failure_releases_callbacks(success, failed, "Stream error: "@ + message);
        },
        _ => {
            law_failure_releases_callbacks(
                success,
                failed,
                "Response body exceeded memory limit"@,
            );
            law_failure_releases_callbacks(success, failed, "rhttp buffered body limit reached"@);
        },
    }
}

/// A request that ends releases each of its callbacks once.
pub proof fn law_end_releases_callbacks(transfer: TransferView, used: nat, event: EventView)
    ensures
        next(transfer, used, event).action matches ActionView::Finish(tasks) ==> released(tasks)
            == held(transfer.success_cb, transfer.failed_cb),
{
    lemma_finish_tasks(transfer, used, event);
}

/// The body bytes that an action passes on to the script side.
pub open spec fn passed_on(action: ActionView) -> nat {
    match action {
        ActionView::Finish(tasks) => tasks_bytes(tasks),
        _ => 0,
    }
}

/// Every body byte that is set aside stays with the request, is passed on to
/// the script side, or is given back; and never are more set aside than the
/// limit allows.
pub proof fn law_buffered_bytes_are_accounted(transfer: TransferView, used: nat, event: EventView)
    requires
        transfer.well_formed(),
        transfer.buffered() <= used <= MAX_BUFFERED_BODY,
    ensures
        ({
            let step = next(transfer, used, event);
            &&& step.used - used == step.transfer.buffered() + passed_on(step.action)
                - transfer.buffered()
            &&& step.used <= MAX_BUFFERED_BODY
        }),
{
    lemma_finish_tasks(transfer, used, event);
}

/// What can come of an action.
pub open spec fn answers(action: ActionView, event: EventView) -> bool {
    match action {
        ActionView::CheckCancelled => event is Proceed || event is Cancelled,
        ActionView::AcquirePermit => event is PermitReady || event is Cancelled,
        ActionView::Send => event is Response || event is SendFailed || event is Cancelled,
        ActionView::Sleep(_) => event is PauseOver || event is Cancelled,
        ActionView::ReadChunk => event is Chunk || event is StreamFailed || event is StreamEnded
            || event is Cancelled,
        ActionView::Finish(_) => false,
        ActionView::Ignore => false,
    }
}

/// What comes of an action is never ignored: a driver that carries out each
/// action and reports what came of it always has something to do, until the
/// request is over.
pub proof fn law_answers_are_taken(
    transfer: TransferView,
    used: nat,
    event: EventView,
    used_then: nat,
    answer: EventView,
)
    requires
        answers(next(transfer, used, event).action, answer),
    ensures
        !(next(next(transfer, used, event).transfer, used_then, answer).action is Ignore),
{
}

/// A request that is cancelled before it is over ends with that error, however
/// far it is.
pub proof fn law_cancel_ends_request(transfer: TransferView, used: nat)
    requires
        !(transfer.phase is Finished),
    ensures
        ({
            let step = next(transfer, used, EventView::Cancelled);
            &&& step.transfer.phase is Finished
            &&& step.tally == Some(Tally::Cancelled)
            &&& step.action == ActionView::Finish(
                failure_report(transfer.success_cb, transfer.failed_cb, "Request cancelled"@),
            )
        }),
{
}

/// Nothing but a cancellation is counted as one.
pub proof fn law_only_cancellation_counts_as_one(
    transfer: TransferView,
    used: nat,
    event: EventView,
)
    ensures
        next(transfer, used, event).tally == Some(Tally::Cancelled) <==> event is Cancelled && !(
        transfer.phase is Finished),
{
}

/// A response is no failure for its status: unless it is tried again, every
/// response is taken in, and one is tried again only for a transient status
/// while there are retries left.
pub proof fn law_every_status_is_a_response(
    transfer: TransferView,
    used: nat,
    status: u16,
    headers: Map<Seq<char>, Seq<Seq<u8>>>,
)
    requires
        transfer.phase is Sending,
    ensures
        ({
            let step = next(transfer, used, EventView::Response { status, headers });
            if is_transient(status) && transfer.attempt < transfer.retries {
                &&& step.action is Sleep
                &&& step.tally == Some(Tally::Retried)
            } else {
                &&& step.action is ReadChunk
                &&& step.tally is None
                &&& step.transfer.phase matches PhaseView::Receiving { status: kept, .. }
                &&& kept == status
            }
        }),
{
}

/// An attempt that fails before there is a response is tried again if the
/// connection failed or the time ran out, while there are retries left; else the
/// request ends with the error.
pub proof fn law_only_transient_failures_are_retried(
    transfer: TransferView,
    used: nat,
    transient: bool,
    message: Seq<char>,
)
    requires
        transfer.phase is Sending,
    ensures
        ({
            let step = next(transfer, used, EventView::SendFailed { transient, message });
            if transient && transfer.attempt < transfer.retries {
                &&& step.action is Sleep
                &&& step.tally == Some(Tally::Retried)
            } else {
                &&& step.action == ActionView::Finish(
                    failure_report(transfer.success_cb, transfer.failed_cb, message),
                )
                &&& step.tally == Some(Tally::Failed)
            }
        }),
{
}

/// A request is sent only when it was given leave to use the network.
pub proof fn law_send_needs_permit(transfer: TransferView, used: nat, event: EventView)
    ensures
        next(transfer, used, event).action is Send ==> transfer.phase is Queued
            && event is PermitReady,
{
}

/// A response body that grows too large ends its request with that error,
/// whether or not there is a callback to get it.
pub proof fn law_large_response_ends_request(transfer: TransferView, used: nat, chunk: Seq<u8>)
    requires
        transfer.phase matches PhaseView::Receiving { size, .. } && size + chunk.len()
            > MAX_BODY_SIZE,
    ensures
        ({
            let step = next(transfer, used, EventView::Chunk(chunk));
            &&& step.action == ActionView::Finish(
                failure_report(
                    transfer.success_cb,
                    transfer.failed_cb,
                    "Response body exceeded memory limit"@,
                ),
            )
            &&& step.tally == Some(Tally::Failed)
        }),
{
}

/// A part of a response body for which the buffers have no room ends its request
/// with that error, and gives back what was set aside for it.
pub proof fn law_full_buffers_end_request(transfer: TransferView, used: nat, chunk: Seq<u8>)
    requires
        transfer.well_formed(),
        transfer.success_cb is Some,
        transfer.buffered() <= used,
        transfer.phase matches PhaseView::Receiving { size, .. } && size + chunk.len()
            <= MAX_BODY_SIZE,
        used + chunk.len() > MAX_BUFFERED_BODY,
    ensures
        ({
            let step = next(transfer, used, EventView::Chunk(chunk));
            &&& step.action == ActionView::Finish(
                failure_report(
                    transfer.success_cb,
                    transfer.failed_cb,
                    "rhttp buffered body limit reached"@,
                ),
            )
            &&& step.tally == Some(Tally::Failed)
            &&& step.used == used - transfer.buffered()
        }),
{
}

/// The bytes of the body parts in a way.
pub open spec fn joined(way: Seq<(nat, EventView)>) -> Seq<u8>
    decreases way.len(),
{
    if way.len() == 0 {
        Seq::empty()
    } else {
        match way.last().1 {
            EventView::Chunk(chunk) => joined(way.drop_last()) + chunk,
            _ => joined(way.drop_last()),
        }
    }
}

/// Every event of a way is a body part for which the buffers have room.
pub open spec fn only_chunks_with_room(way: Seq<(nat, EventView)>) -> bool {
    forall|i: int|
        0 <= i < way.len() ==> ((#[trigger] way[i]).1 matches EventView::Chunk(chunk) && way[i].0
            + chunk.len() <= MAX_BUFFERED_BODY)
}

proof fn lemma_chunks_add_up(
    transfer: TransferView,
    status: u16,
    headers: Map<Seq<char>, Seq<Seq<u8>>>,
    way: Seq<(nat, EventView)>,
)
    requires
        transfer.success_cb is Some,
        transfer.phase == (PhaseView::Receiving { status, headers, body: Seq::empty(), size: 0 }),
        only_chunks_with_room(way),
        joined(way).len() <= MAX_BODY_SIZE,
    ensures
        after(transfer, way) == transfer.moved(
            PhaseView::Receiving { status, headers, body: joined(way), size: joined(way).len() },
        ),
    decreases way.len(),
{
    if way.len() > 0 {
        let rest = way.drop_last();
        assert forall|i: int| 0 <= i < rest.len() implies ((#[trigger] rest[i]).1 matches EventView::Chunk(
            chunk,
        ) && rest[i].0 + chunk.len() <= MAX_BUFFERED_BODY) by {
            assert(rest[i] == way[i]);
        }
        assert(way[way.len() - 1] == way.last());
        lemma_chunks_add_up(transfer, status, headers, rest);
    }
}

/// The callback gets the response as it came: a body that comes in parts, small
/// enough and with room for it, arrives whole and in order, with the status and
/// the headers of the response.
pub proof fn law_body_arrives_whole(
    transfer: TransferView,
    status: u16,
    headers: Map<Seq<char>, Seq<Seq<u8>>>,
    way: Seq<(nat, EventView)>,
    used: nat,
)
    requires
        transfer.success_cb is Some,
        transfer.phase == (PhaseView::Receiving { status, headers, body: Seq::empty(), size: 0 }),
        only_chunks_with_room(way),
        joined(way).len() <= MAX_BODY_SIZE,
    ensures
        next(after(transfer, way), used, EventView::StreamEnded).action == ActionView::Finish(
            success_report(
                transfer.success_cb,
                transfer.failed_cb,
                status,
                joined(way),
                headers,
            ),
        ),
        next(after(transfer, way), used, EventView::StreamEnded).tally == Some(Tally::Succeeded),
{
    lemma_chunks_add_up(transfer, status, headers, way);
}

/// A response with a status of passing trouble, while there are retries left, has
/// the request tried again after the pause that the response asks for, up to half
/// a minute; where it asks for none, after the base pause, doubled with every
/// attempt, up to half a minute. Which of these statuses it is makes no difference.
pub proof fn law_response_is_retried_as_it_asks(
    transfer: TransferView,
    used: nat,
    status: u16,
    headers: Map<Seq<char>, Seq<Seq<u8>>>,
)
    requires
        transfer.phase is Sending,
        transfer.attempt < transfer.retries,
        seq![408u16, 429, 500, 502, 503, 504].contains(status),
    ensures
        ({
            let step = next(transfer, used, EventView::Response { status, headers });
            &&& step.transfer == (TransferView {
                attempt: transfer.attempt + 1,
                phase: PhaseView::Waiting,
                ..transfer
            })
            &&& step.tally == Some(Tally::Retried)
            &&& step.used == used
            &&& step.action matches ActionView::Sleep(pause)
            &&& retry_after(headers) matches Some(seconds) ==> pause == (if seconds <= 30 {
                seconds * 1_000_000_000
            } else {
                30_000_000_000
            })
            &&& retry_after(headers) is None ==> pause == capped_backoff(transfer)
        }),
{
    law_transient_statuses(status);
    law_pause_is_as_asked(
        match retry_after(headers) {
            Some(seconds) => seconds,
            None => 0,
        },
        transfer.attempt,
        transfer.retry_delay,
    );
}

/// The base pause of a request, doubled with every attempt up to the sixth, up to
/// half a minute.
pub open spec fn capped_backoff(transfer: TransferView) -> nat {
    let doubled = transfer.retry_delay * pow2(
        if transfer.attempt <= 6 {
            transfer.attempt
        } else {
            6
        },
    );
    if doubled <= 30_000_000_000 {
        doubled
    } else {
        30_000_000_000
    }
}

/// Any other response, and any response once there are no retries left, is taken
/// in from its first byte, with its status and its headers; nothing is counted
/// yet.
pub proof fn law_response_is_taken_in(
    transfer: TransferView,
    used: nat,
    status: u16,
    headers: Map<Seq<char>, Seq<Seq<u8>>>,
)
    requires
        transfer.phase is Sending,
        transfer.attempt >= transfer.retries || !seq![408u16, 429, 500, 502, 503, 504].contains(
            status,
        ),
    ensures
        next(transfer, used, EventView::Response { status, headers }) == (StepView {
            transfer: TransferView {
                phase: PhaseView::Receiving { status, headers, body: Seq::empty(), size: 0 },
                ..transfer
            },
            action: ActionView::ReadChunk,
            tally: None,
            used,
        }),
{
    law_transient_statuses(status);
}

/// An attempt that fails for a passing reason, while there are retries left, is
/// followed by another one after the backoff; any other failure ends the request,
/// which is counted as failed and reports the error as it is.
pub proof fn law_failed_attempt(
    transfer: TransferView,
    used: nat,
    transient: bool,
    message: Seq<char>,
)
    requires
        transfer.phase is Sending,
    ensures
        ({
            let step = next(transfer, used, EventView::SendFailed { transient, message });
            if transient && transfer.attempt < transfer.retries {
                step == (StepView {
                    transfer: TransferView {
                        attempt: transfer.attempt + 1,
                        phase: PhaseView::Waiting,
                        ..transfer
                    },
                    action: ActionView::Sleep(capped_backoff(transfer)),
                    tally: Some(Tally::Retried),
                    used,
                })
            } else {
                step == (StepView {
                    transfer: TransferView { phase: PhaseView::Finished, ..transfer },
                    action: ActionView::Finish(
                        failure_report(transfer.success_cb, transfer.failed_cb, message),
                    ),
                    tally: Some(Tally::Failed),
                    used,
                })
            }
        }),
{
    law_pause_is_as_asked(0, transfer.attempt, transfer.retry_delay);
}

/// A request that may go on asks for the network, one that has it is sent, and one
/// whose pause is over first sees whether it was cancelled. Nothing is counted and
/// nothing else of the request changes.
pub proof fn law_turns(transfer: TransferView, used: nat)
    ensures
        transfer.phase is Ready ==> next(transfer, used, EventView::Proceed) == (StepView {
            transfer: TransferView { phase: PhaseView::Queued, ..transfer },
            action: ActionView::AcquirePermit,
            tally: None,
            used,
        }),
        transfer.phase is Queued ==> next(transfer, used, EventView::PermitReady) == (StepView {
            transfer: TransferView { phase: PhaseView::Sending, ..transfer },
            action: ActionView::Send,
            tally: None,
            used,
        }),
        transfer.phase is Waiting ==> next(transfer, used, EventView::PauseOver) == (StepView {
            transfer: TransferView { phase: PhaseView::Ready, ..transfer },
            action: ActionView::CheckCancelled,
            tally: None,
            used,
        }),
{
}

/// A part of a body that fits is added at the end of what came, and set aside, for
/// a request with a success callback; without one it is only counted against the
/// limit. Then the next part is asked for.
pub proof fn law_part_of_a_body(
    transfer: TransferView,
    used: nat,
    status: u16,
    headers: Map<Seq<char>, Seq<Seq<u8>>>,
    body: Seq<u8>,
    size: nat,
    chunk: Seq<u8>,
)
    requires
        transfer.phase == (PhaseView::Receiving { status, headers, body, size }),
        size + chunk.len() <= 20_971_520,
    ensures
        transfer.success_cb is Some && used + chunk.len() <= 67_108_864 ==> next(
            transfer,
            used,
            EventView::Chunk(chunk),
        ) == (StepView {
            transfer: TransferView {
                phase: PhaseView::Receiving {
                    status,
                    headers,
                    body: body + chunk,
                    size: size + chunk.len(),
                },
                ..transfer
            },
            action: ActionView::ReadChunk,
            tally: None,
            used: used + chunk.len(),
        }),
        transfer.success_cb is None ==> next(transfer, used, EventView::Chunk(chunk)) == (
        StepView {
            transfer: TransferView {
                phase: PhaseView::Receiving { status, headers, body, size: size + chunk.len() },
                ..transfer
            },
            action: ActionView::ReadChunk,
            tally: None,
            used,
        }),
{
}

/// A part of a body that makes it larger than 20 MB, or for which 64 MB of buffers
/// have no room, ends the request: it is counted as failed, reports which limit it
/// met, and gives its buffer back.
pub proof fn law_part_that_does_not_fit(transfer: TransferView, used: nat, chunk: Seq<u8>)
    requires
        transfer.phase is Receiving,
        transfer.buffered() <= used,
    ensures
        ({
            let size = transfer.phase->size;
            let step = next(transfer, used, EventView::Chunk(chunk));
            let ended = |message: Seq<char>|
                {
                    &&& step.transfer == (TransferView { phase: PhaseView::Finished, ..transfer })
                    &&& step.action == ActionView::Finish(
                        failure_report(transfer.success_cb, transfer.failed_cb, message),
                    )
                    &&& step.tally == Some(Tally::Failed)
                    &&& step.used == used - transfer.phase->body.len()
                };
            &&& size + chunk.len() > 20_971_520 ==> ended("Response body exceeded memory limit"@)
            &&& size + chunk.len() <= 20_971_520 && transfer.success_cb is Some && used
                + chunk.len() > 67_108_864 ==> ended("rhttp buffered body limit reached"@)
        }),
{
}

/// A body that breaks off ends the request with that error, and gives its buffer
/// back; one that is complete ends it with the response, which stays buffered.
pub proof fn law_end_of_a_body(transfer: TransferView, used: nat, message: Seq<char>)
    requires
        transfer.phase is Receiving,
        transfer.buffered() <= used,
    ensures
        next(transfer, used, EventView::StreamFailed(message)) == (StepView {
            transfer: TransferView { phase: PhaseView::Finished, ..transfer },
            action: ActionView::Finish(
                failure_report(
                    transfer.success_cb,
                    transfer.failed_cb,
                    "Stream error: "@ + message,
                ),
            ),
            tally: Some(Tally::Failed),
            used: (used - transfer.phase->body.len()) as nat,
        }),
        next(transfer, used, EventView::StreamEnded) == (StepView {
            transfer: TransferView { phase: PhaseView::Finished, ..transfer },
            action: ActionView::Finish(
                success_report(
                    transfer.success_cb,
                    transfer.failed_cb,
                    transfer.phase->status,
                    transfer.phase->body,
                    transfer.phase->headers,
                ),
            ),
            tally: Some(Tally::Succeeded),
            used,
        }),
{
}

/// A request that is cancelled gives its buffer back.
pub proof fn law_cancelled_request_keeps_nothing(transfer: TransferView, used: nat)
    requires
        !(transfer.phase is Finished),
        transfer.buffered() <= used,
    ensures
        ({
            let step = next(transfer, used, EventView::Cancelled);
            &&& step.transfer == (TransferView { phase: PhaseView::Finished, ..transfer })
            &&& step.used == used - (if transfer.phase is Receiving {
                transfer.phase->body.len()
            } else {
                0
            })
        }),
{
}

/// What a request does not wait for changes nothing.
pub proof fn law_out_of_turn_is_ignored(transfer: TransferView, used: nat, event: EventView)
    requires
        !(event is Cancelled),
        !(transfer.phase is Ready && event is Proceed),
        !(transfer.phase is Queued && event is PermitReady),
        !(transfer.phase is Sending && (event is SendFailed || event is Response)),
        !(transfer.phase is Waiting && event is PauseOver),
        !(transfer.phase is Receiving && (event is Chunk || event is StreamFailed
            || event is StreamEnded)),
    ensures
        next(transfer, used, event) == (StepView {
            transfer,
            action: ActionView::Ignore,
            tally: None,
            used,
        }),
{
}

/// A step counts what it is said to count, and nothing where there is nothing.
pub proof fn law_step_counts(stats: StatsSnapshot, tally: Tally)
    ensures
        counted(stats, None) == stats,
        counted(stats, Some(tally)) == tallied(stats, tally),
{
}

/// The view of an event is the event.
pub proof fn law_view_of_event(event: Event)
    ensures
        event is Proceed ==> event@ is Proceed,
        event is Cancelled ==> event@ is Cancelled,
        event is PermitReady ==> event@ is PermitReady,
        event is PauseOver ==> event@ is PauseOver,
        event is StreamEnded ==> event@ is StreamEnded,
        event matches Event::SendFailed { transient, message } ==> event@ == (
        EventView::SendFailed { transient, message: message@ }),
        event matches Event::Response { status, headers } ==> event@ == (EventView::Response {
            status,
            headers: header_contents(headers),
        }),
        event matches Event::Chunk(bytes) ==> event@ == EventView::Chunk(bytes@),
        event matches Event::StreamFailed(message) ==> event@ == EventView::StreamFailed(message@),
{
}

/// The view of an action is the action.
pub proof fn law_view_of_action(action: Action)
    ensures
        action is CheckCancelled <==> action@ is CheckCancelled,
        action is AcquirePermit <==> action@ is AcquirePermit,
        action is Send <==> action@ is Send,
        action is ReadChunk <==> action@ is ReadChunk,
        action is Ignore <==> action@ is Ignore,
        action matches Action::Sleep(nanos) ==> action@ == ActionView::Sleep(nanos as nat),
        action matches Action::Finish(tasks) ==> action@ == ActionView::Finish(tasks_view(tasks@)),
        action is Sleep <==> action@ is Sleep,
        action is Finish <==> action@ is Finish,
{
}

} // verus!
