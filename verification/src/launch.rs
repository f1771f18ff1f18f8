//! From the options of a request to a request on its way, or to the answer that
//! a refused request gets.

use vstd::prelude::*;

use crate::callback::{
    failure_report, held, law_failure_reaches_its_callback, law_failure_releases_callbacks,
    law_response_reaches_its_callback, released, report_failure, tasks_bytes, tasks_view,
    CallbackTask, CallbackTaskView, LuaReference,
};
use crate::error::{error_text, RequestError, RequestErrorView};
use crate::request::{
    plan_request, plan_view, planned_request, too_many_possible, RequestOptions, RequestPlan,
    RequestPlanView,
};
use crate::registry::own_token;
use crate::transfer::{next, ActionView, EventView, PhaseView, Transfer, TransferView};
use crate::transfer_laws::{
    after, joined, law_body_arrives_whole, law_cancel_ends_request, law_failed_attempt,
    law_response_is_taken_in, law_turns, only_chunks_with_room,
};
use crate::worker::{
    accepted, refusal, submit, AcceptedRequest, WorkerResources, WorkerView,
};

verus! {

/// What became of a request.
#[derive(Debug)]
pub enum Launch {
    /// The request is on its way.
    Queued {
        /// What is sent.
        plan: RequestPlan,
        /// The place of the request in the client.
        entry: AcceptedRequest,
        /// The request itself, about to start its first attempt.
        transfer: Transfer,
    },
    /// The request is refused; these tasks answer it.
    Refused(Vec<CallbackTask>),
}

/// The bytes of the body of a plan.
pub open spec fn body_size(plan: RequestPlanView) -> nat {
    match plan.body {
        Some(body) => body.len(),
        None => 0,
    }
}

/// Why a request is refused, if it is: there is no plan for it, the client is
/// not running, or the client does not let it in.
pub open spec fn launch_error(
    worker: Option<WorkerView>,
    plan: Result<RequestPlanView, RequestErrorView>,
) -> Option<RequestErrorView> {
    match (plan, worker) {
        (Err(error), _) => Some(error),
        (Ok(_), None) => Some(RequestErrorView::NotInitialized),
        (Ok(plan), Some(worker)) => refusal(worker, body_size(plan)),
    }
}

/// A request that is about to start its first attempt by a plan.
pub open spec fn first_attempt(
    plan: RequestPlanView,
    success_cb: Option<LuaReference>,
    failed_cb: Option<LuaReference>,
) -> TransferView {
    TransferView {
        success_cb,
        failed_cb,
        retries: plan.retries as nat,
        retry_delay: plan.retry_delay as nat,
        attempt: 0,
        phase: PhaseView::Ready,
    }
}

/// What a launch makes of a plan and of the client: a request that is refused
/// changes nothing and is answered with the error; any other is let in and on
/// its way by its plan.
pub open spec fn launched(
    before: Option<WorkerView>,
    after: Option<WorkerView>,
    plan: Result<RequestPlanView, RequestErrorView>,
    success_cb: Option<LuaReference>,
    failed_cb: Option<LuaReference>,
    launch: Launch,
) -> bool {
    match launch {
        Launch::Refused(tasks) => {
            &&& launch_error(before, plan) is Some
            &&& tasks_view(tasks@) == failure_report(
                success_cb,
                failed_cb,
                error_text(launch_error(before, plan)->0),
            )
            &&& after == before
        },
        Launch::Queued { plan: kept, entry, transfer } => {
            &&& launch_error(before, plan) is None
            &&& plan == Ok::<RequestPlanView, RequestErrorView>(kept@)
            &&& entry.id() == before->0.next_id
            &&& entry.reserved() == body_size(kept@)
            &&& own_token(before->0.requests, before->0.cancelled, entry.token())
            &&& after == Some(accepted(before->0, body_size(kept@), entry.token()))
            &&& transfer@ == first_attempt(kept@, success_cb, failed_cb)
        },
    }
}

/// Answers a request that is refused: its failure callback gets the text of the
/// error, its success callback is let go.
pub fn fail_request(
    success_cb: Option<LuaReference>,
    failed_cb: Option<LuaReference>,
    error: RequestError,
) -> (tasks: Vec<CallbackTask>)
    ensures
        tasks_view(tasks@) == failure_report(success_cb, failed_cb, error_text(error@)),
{
    report_failure(success_cb, failed_cb, error.message())
}

/// Launches a request that is planned, or answers it if it could not be planned
/// or is not let in. The client may not be running.
pub fn launch_planned(
    worker: Option<&mut WorkerResources>,
    plan: Result<RequestPlan, RequestError>,
    success_cb: Option<LuaReference>,
    failed_cb: Option<LuaReference>,
) -> (launch: Launch)
    ensures
        worker is None ==> launched(None, None, plan_view(plan), success_cb, failed_cb, launch),
        worker is Some ==> launched(
            Some(old(worker->0)@),
            Some(final(worker->0)@),
            plan_view(plan),
            success_cb,
            failed_cb,
            launch,
        ),
        launch matches Launch::Queued { plan: kept, transfer, .. } ==> {
            &&& transfer@.success_cb == success_cb
            &&& transfer@.failed_cb == failed_cb
            &&& transfer@.retries == kept@.retries
            &&& transfer@.retry_delay == kept@.retry_delay
        },
{
    let plan = match plan {
        Ok(plan) => plan,
        Err(error) => return Launch::Refused(fail_request(success_cb, failed_cb, error)),
    };
    let size: usize = match &plan.body {
        Some(body) => body.len(),
        None => 0,
    };
    match submit(worker, size) {
        Ok(entry) => {
            let transfer = Transfer::new(success_cb, failed_cb, plan.retries, plan.retry_delay);
            Launch::Queued { plan, entry, transfer }
        },
        Err(error) => Launch::Refused(fail_request(success_cb, failed_cb, error)),
    }
}

/// Launches the request that options make, or answers it. Where there are more
/// different headers than a header map is sure to take, it may be refused for
/// them.
pub fn launch_request(
    worker: Option<&mut WorkerResources>,
    options: RequestOptions,
    success_cb: Option<LuaReference>,
    failed_cb: Option<LuaReference>,
) -> (launch: Launch)
    ensures
        worker is None ==> launched(
            None,
            None,
            planned_request(options@),
            success_cb,
            failed_cb,
            launch,
        ) || (too_many_possible(options@) && launched(
            None,
            None,
            Err(RequestErrorView::TooManyHeaders),
            success_cb,
            failed_cb,
            launch,
        )),
        worker is Some ==> launched(
            Some(old(worker->0)@),
            Some(final(worker->0)@),
            planned_request(options@),
            success_cb,
            failed_cb,
            launch,
        ) || (too_many_possible(options@) && launched(
            Some(old(worker->0)@),
            Some(final(worker->0)@),
            Err(RequestErrorView::TooManyHeaders),
            success_cb,
            failed_cb,
            launch,
        )),
        launch matches Launch::Queued { plan: kept, transfer, .. } ==> {
            &&& transfer@.success_cb == success_cb
            &&& transfer@.failed_cb == failed_cb
            &&& transfer@.retries == kept@.retries
            &&& transfer@.retry_delay == kept@.retry_delay
        },
{
    launch_planned(worker, plan_request(options), success_cb, failed_cb)
}

/// A request that is refused, for whatever reason, leaves the client as it is,
/// releases each of its callbacks once and keeps no body buffered.
pub proof fn law_refusal_leaves_nothing(
    before: Option<WorkerView>,
    after: Option<WorkerView>,
    plan: Result<RequestPlanView, RequestErrorView>,
    success_cb: Option<LuaReference>,
    failed_cb: Option<LuaReference>,
    launch: Launch,
)
    requires
        launched(before, after, plan, success_cb, failed_cb, launch),
    ensures
        launch matches Launch::Refused(tasks) ==> {
            &&& after == before
            &&& released(tasks_view(tasks@)) == held(success_cb, failed_cb)
            &&& tasks_bytes(tasks_view(tasks@)) == 0
        },
{
    if launch is Refused {
        law_failure_releases_callbacks(
            success_cb,
            failed_cb,
            error_text(launch_error(before, plan)->0),
        );
    }
}

/// A request that is on its way has the callbacks, the retries and the base pause
/// that it was launched with, and is before its first attempt; its plan is the one
/// that was made for it.
pub proof fn law_launch_keeps_callbacks(
    before: Option<WorkerView>,
    after: Option<WorkerView>,
    plan: Result<RequestPlanView, RequestErrorView>,
    success_cb: Option<LuaReference>,
    failed_cb: Option<LuaReference>,
    launch: Launch,
)
    requires
        launched(before, after, plan, success_cb, failed_cb, launch),
    ensures
        launch matches Launch::Queued { plan: kept, entry, transfer } ==> {
            &&& plan is Ok
            &&& plan->Ok_0 == kept@
            &&& transfer@.success_cb == success_cb
            &&& transfer@.failed_cb == failed_cb
            &&& transfer@.retries == kept@.retries
            &&& transfer@.retry_delay == kept@.retry_delay
            &&& transfer@.attempt == 0
            &&& transfer@.phase is Ready
            &&& before is Some && after is Some
            &&& entry.id() == before->0.next_id
            &&& after->0.requests.contains_key(entry.id())
            &&& after->0.requests[entry.id()] == entry.token()
            &&& !after->0.cancelled.contains(entry.token())
            &&& kept@.body matches Some(body) ==> entry.reserved() == body.len()
            &&& kept@.body is None ==> entry.reserved() == 0
            &&& after->0.buffered == before->0.buffered + entry.reserved()
        },
{
}

/// A request is on its way exactly where it has a plan, the client is running,
/// fewer than 1024 requests are in flight, and its body fits into 64 MB with all
/// that is buffered.
pub proof fn law_launch_is_owed(
    before: Option<WorkerView>,
    after: Option<WorkerView>,
    plan: Result<RequestPlanView, RequestErrorView>,
    success_cb: Option<LuaReference>,
    failed_cb: Option<LuaReference>,
    launch: Launch,
)
    requires
        launched(before, after, plan, success_cb, failed_cb, launch),
    ensures
        launch is Queued <==> {
            &&& plan is Ok
            &&& before is Some
            &&& before->0.stats.in_flight < 1024
            &&& before->0.buffered + (match plan->Ok_0.body {
                Some(body) => body.len(),
                None => 0,
            }) <= 67_108_864
        },
{
}

/// A request that is refused is told the first thing that is wrong: the error of
/// its plan, then that the client is not running, then that the queue is full, then
/// that the buffers are. Its failure callback gets that error, its success callback
/// is let go, and nothing changes in the client.
pub proof fn law_refusal_is_told(
    before: Option<WorkerView>,
    after: Option<WorkerView>,
    plan: Result<RequestPlanView, RequestErrorView>,
    success_cb: Option<LuaReference>,
    failed_cb: Option<LuaReference>,
    launch: Launch,
)
    requires
        launched(before, after, plan, success_cb, failed_cb, launch),
    ensures
        launch matches Launch::Refused(tasks) ==> {
            let told = |text: Seq<char>|
                tasks_view(tasks@) == failure_report(success_cb, failed_cb, text);
            &&& after == before
            &&& plan matches Err(error) ==> told(error_text(error))
            &&& plan is Ok && before is None ==> told("rhttp is not initialized"@)
            &&& plan is Ok && before is Some && before->0.stats.in_flight >= 1024 ==> told(
                "rhttp request queue is full (limit: 1024)"@,
            )
            &&& plan is Ok && before is Some && before->0.stats.in_flight < 1024 ==> told(
                "rhttp buffered body limit reached"@,
            )
        },
{
}

/// A request that is launched, sent and answered hands the whole response to its
/// own success callback, and lets its own failure callback go: with the status, the
/// headers and the body parts in order, for every status that is not retried and
/// every body for which there is room.
pub proof fn law_launched_request_gets_its_response(
    before: Option<WorkerView>,
    after_launch: Option<WorkerView>,
    plan: Result<RequestPlanView, RequestErrorView>,
    success: LuaReference,
    failed: LuaReference,
    launch: Launch,
    status: u16,
    headers: Map<Seq<char>, Seq<Seq<u8>>>,
    way: Seq<(nat, EventView)>,
    used: nat,
)
    requires
        launched(before, after_launch, plan, Some(success), Some(failed), launch),
        launch is Queued,
        plan->Ok_0.retries == 0 || !seq![408u16, 429, 500, 502, 503, 504].contains(status),
        only_chunks_with_room(way),
        joined(way).len() <= 20_971_520,
    ensures
        ({
            let ready = launch->transfer@;
            let queued = next(ready, used, EventView::Proceed).transfer;
            let sending = next(queued, used, EventView::PermitReady).transfer;
            let receiving = next(sending, used, EventView::Response { status, headers }).transfer;
            next(after(receiving, way), used, EventView::StreamEnded).action
                == ActionView::Finish(
                seq![
                    CallbackTaskView::Success(success, status, joined(way), headers),
                    CallbackTaskView::DropRef(failed),
                ],
            )
        }),
{
    let ready = launch->transfer@;
    let queued = next(ready, used, EventView::Proceed).transfer;
    let sending = next(queued, used, EventView::PermitReady).transfer;
    let receiving = next(sending, used, EventView::Response { status, headers }).transfer;
    law_turns(ready, used);
    law_turns(queued, used);
    law_response_is_taken_in(sending, used, status, headers);
    law_body_arrives_whole(receiving, status, headers, way, used);
    law_response_reaches_its_callback(success, failed, status, joined(way), headers);
}

/// A request that is launched and then fails or is cancelled before a response
/// hands the error to its own failure callback, and lets its own success callback
/// go.
pub proof fn law_launched_request_gets_its_error(
    before: Option<WorkerView>,
    after_launch: Option<WorkerView>,
    plan: Result<RequestPlanView, RequestErrorView>,
    success: LuaReference,
    failed: LuaReference,
    launch: Launch,
    message: Seq<char>,
    used: nat,
)
    requires
        launched(before, after_launch, plan, Some(success), Some(failed), launch),
        launch is Queued,
    ensures
        ({
            let ready = launch->transfer@;
            let queued = next(ready, used, EventView::Proceed).transfer;
            let sending = next(queued, used, EventView::PermitReady).transfer;
            let told = |text: Seq<char>|
                ActionView::Finish(
                    seq![
                        CallbackTaskView::Failed(failed, text),
                        CallbackTaskView::DropRef(success),
                    ],
                );
            &&& next(
                sending,
                used,
                EventView::SendFailed { transient: false, message },
            ).action == told(message)
            &&& next(ready, used, EventView::Cancelled).action == told("Request cancelled"@)
            &&& next(queued, used, EventView::Cancelled).action == told("Request cancelled"@)
            &&& next(sending, used, EventView::Cancelled).action == told("Request cancelled"@)
        }),
{
    let ready = launch->transfer@;
    let queued = next(ready, used, EventView::Proceed).transfer;
    let sending = next(queued, used, EventView::PermitReady).transfer;
    law_turns(ready, used);
    law_turns(queued, used);
    law_failed_attempt(sending, used, false, message);
    law_cancel_ends_request(ready, used);
    law_cancel_ends_request(queued, used);
    law_cancel_ends_request(sending, used);
    law_failure_reaches_its_callback(success, failed, message);
    law_failure_reaches_its_callback(success, failed, "Request cancelled"@);
}

} // verus!
