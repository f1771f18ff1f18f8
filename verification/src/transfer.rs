//! One request on its way: attempts, retries and the response body.
//!
//! A [`Transfer`] decides; its driver does the waiting and the network. The
//! driver carries out the [`Action`] it was given and reports what came of it
//! as an [`Event`].

use reqwest::header::HeaderMap;
use vstd::prelude::*;

use crate::budget::BodyBudget;
use crate::callback::{
    failure_report, report_failure, report_success, success_report, tasks_view, CallbackTask,
    CallbackTaskView, LuaReference,
};
use crate::headers::header_contents;
use crate::limits::{MAX_BODY_SIZE, MAX_BUFFERED_BODY};
use crate::retry::{
    asked_pause, is_transient, pause_nanos, retry_after, retry_delay, retryable_status,
};
use crate::stats::{tallied, HttpStats, StatsSnapshot, Tally};

verus! {

/// What happened to a request.
#[derive(Debug)]
pub enum Event {
    /// The request is about to start an attempt and was not cancelled.
    Proceed,
    /// The request was cancelled.
    Cancelled,
    /// The request may use the network.
    PermitReady,
    /// The attempt failed before there was a response.
    SendFailed {
        /// Whether the connection failed or the time ran out.
        transient: bool,
        /// What went wrong.
        message: String,
    },
    /// The head of a response came.
    Response {
        /// Its status.
        status: u16,
        /// Its headers.
        headers: HeaderMap,
    },
    /// The pause before the next attempt is over.
    PauseOver,
    /// A part of the response body came.
    Chunk(Vec<u8>),
    /// The response body broke off.
    StreamFailed(String),
    /// The response body is complete.
    StreamEnded,
}

/// What an [`Event`] holds.
#[verifier::ext_equal]
pub enum EventView {
    /// The request is about to start an attempt and was not cancelled.
    Proceed,
    /// The request was cancelled.
    Cancelled,
    /// The request may use the network.
    PermitReady,
    /// The attempt failed before there was a response.
    SendFailed {
        /// Whether the connection failed or the time ran out.
        transient: bool,
        /// What went wrong.
        message: Seq<char>,
    },
    /// The head of a response came.
    Response {
        /// Its status.
        status: u16,
        /// Its headers.
        headers: Map<Seq<char>, Seq<Seq<u8>>>,
    },
    /// The pause before the next attempt is over.
    PauseOver,
    /// A part of the response body came.
    Chunk(Seq<u8>),
    /// The response body broke off.
    StreamFailed(Seq<char>),
    /// The response body is complete.
    StreamEnded,
}

impl View for Event {
    type V = EventView;

    open spec fn view(&self) -> EventView {
        match self {
            Event::Proceed => EventView::Proceed,
            Event::Cancelled => EventView::Cancelled,
            Event::PermitReady => EventView::PermitReady,
            Event::SendFailed { transient, message } => EventView::SendFailed {
                transient: *transient,
                message: message@,
            },
            Event::Response { status, headers } => EventView::Response {
                status: *status,
                headers: header_contents(*headers),
            },
            Event::PauseOver => EventView::PauseOver,
            Event::Chunk(bytes) => EventView::Chunk(bytes@),
            Event::StreamFailed(message) => EventView::StreamFailed(message@),
            Event::StreamEnded => EventView::StreamEnded,
        }
    }
}

/// What the driver has to do next.
#[derive(Debug)]
pub enum Action {
    /// See whether the request was cancelled.
    CheckCancelled,
    /// Wait until the request may use the network.
    AcquirePermit,
    /// Send the request and wait for the head of the response.
    Send,
    /// Let others use the network and wait this many nanoseconds.
    Sleep(u64),
    /// Wait for the next part of the response body.
    ReadChunk,
    /// Let others use the network and hand these tasks to the script side. The
    /// request is over.
    Finish(Vec<CallbackTask>),
    /// Nothing: the request did not wait for what happened.
    Ignore,
}

/// What an [`Action`] holds.
#[verifier::ext_equal]
pub enum ActionView {
    /// See whether the request was cancelled.
    CheckCancelled,
    /// Wait until the request may use the network.
    AcquirePermit,
    /// Send the request and wait for the head of the response.
    Send,
    /// Let others use the network and wait this many nanoseconds.
    Sleep(nat),
    /// Wait for the next part of the response body.
    ReadChunk,
    /// Let others use the network and hand these tasks to the script side. The
    /// request is over.
    Finish(Seq<CallbackTaskView>),
    /// Nothing: the request did not wait for what happened.
    Ignore,
}

impl View for Action {
    type V = ActionView;

    open spec fn view(&self) -> ActionView {
        match self {
            Action::CheckCancelled => ActionView::CheckCancelled,
            Action::AcquirePermit => ActionView::AcquirePermit,
            Action::Send => ActionView::Send,
            Action::Sleep(nanos) => ActionView::Sleep(*nanos as nat),
            Action::ReadChunk => ActionView::ReadChunk,
            Action::Finish(tasks) => ActionView::Finish(tasks_view(tasks@)),
            Action::Ignore => ActionView::Ignore,
        }
    }
}

#[derive(Debug)]
enum Phase {
    Ready,
    Queued,
    Sending,
    Waiting,
    Receiving { status: u16, headers: HeaderMap, body: Vec<u8>, size: usize },
    Finished,
}

/// How far a request is.
#[verifier::ext_equal]
pub enum PhaseView {
    /// About to start an attempt.
    Ready,
    /// Waiting for the network.
    Queued,
    /// Waiting for the head of a response.
    Sending,
    /// Pausing before the next attempt.
    Waiting,
    /// Taking in a response body.
    Receiving {
        /// The status of the response.
        status: u16,
        /// The headers of the response.
        headers: Map<Seq<char>, Seq<Seq<u8>>>,
        /// The part of the body that is kept.
        body: Seq<u8>,
        /// The bytes of the body that came.
        size: nat,
    },
    /// Over.
    Finished,
}

/// A request on its way.
#[derive(Debug)]
pub struct Transfer {
    success_cb: Option<LuaReference>,
    failed_cb: Option<LuaReference>,
    retries: usize,
    retry_delay: u128,
    attempt: usize,
    phase: Phase,
}

/// What a [`Transfer`] holds.
#[verifier::ext_equal]
pub struct TransferView {
    /// The callback for the response.
    pub success_cb: Option<LuaReference>,
    /// The callback for an error.
    pub failed_cb: Option<LuaReference>,
    /// How often the request is tried again at most.
    pub retries: nat,
    /// The base pause between attempts, in nanoseconds.
    pub retry_delay: nat,
    /// How often the request was tried again.
    pub attempt: nat,
    /// How far the request is.
    pub phase: PhaseView,
}

impl View for Transfer {
    type V = TransferView;

    closed spec fn view(&self) -> TransferView {
        TransferView {
            success_cb: self.success_cb,
            failed_cb: self.failed_cb,
            retries: self.retries as nat,
            retry_delay: self.retry_delay as nat,
            attempt: self.attempt as nat,
            phase: match self.phase {
                Phase::Ready => PhaseView::Ready,
                Phase::Queued => PhaseView::Queued,
                Phase::Sending => PhaseView::Sending,
                Phase::Waiting => PhaseView::Waiting,
                Phase::Receiving { status, headers, body, size } => PhaseView::Receiving {
                    status,
                    headers: header_contents(headers),
                    body: body@,
                    size: size as nat,
                },
                Phase::Finished => PhaseView::Finished,
            },
        }
    }
}

impl TransferView {
    /// What holds of every request: it was not tried more often than it may
    /// be, no more of a body came than a body can have, and of that body
    /// everything or, without a callback to get it, nothing is kept.
    pub open spec fn well_formed(self) -> bool {
        &&& self.attempt <= self.retries
        &&& self.phase matches PhaseView::Receiving { body, size, .. } ==> {
            &&& size <= MAX_BODY_SIZE
            &&& body.len() == (if self.success_cb is Some {
                size
            } else {
                0
            })
        }
    }

    /// The body bytes that the request keeps buffered.
    pub open spec fn buffered(self) -> nat {
        match self.phase {
            PhaseView::Receiving { body, .. } => body.len(),
            _ => 0,
        }
    }

    /// The request as it is after it moved on to `phase`.
    pub open spec fn moved(self, phase: PhaseView) -> TransferView {
        TransferView { phase, ..self }
    }
}

/// What an event makes of a request.
#[verifier::ext_equal]
pub struct StepView {
    /// The request afterwards.
    pub transfer: TransferView,
    /// What the driver has to do.
    pub action: ActionView,
    /// What is counted.
    pub tally: Option<Tally>,
    /// The body bytes that are buffered afterwards, over all requests.
    pub used: nat,
}

/// The request moves on and asks for `action`.
pub open spec fn go_on(
    transfer: TransferView,
    used: nat,
    phase: PhaseView,
    action: ActionView,
) -> StepView {
    StepView { transfer: transfer.moved(phase), action, tally: None, used }
}

/// The request ends without a response: its body is let go, and its callbacks
/// get `message`.
pub open spec fn fail(
    transfer: TransferView,
    used: nat,
    tally: Tally,
    message: Seq<char>,
) -> StepView {
    StepView {
        transfer: transfer.moved(PhaseView::Finished),
        action: ActionView::Finish(
            failure_report(transfer.success_cb, transfer.failed_cb, message),
        ),
        tally: Some(tally),
        used: (used - transfer.buffered()) as nat,
    }
}

/// The request pauses and is then tried again.
pub open spec fn try_again(transfer: TransferView, used: nat, after: Option<u64>) -> StepView {
    StepView {
        transfer: TransferView {
            attempt: transfer.attempt + 1,
            phase: PhaseView::Waiting,
            ..transfer
        },
        action: ActionView::Sleep(pause_nanos(after, transfer.attempt, transfer.retry_delay)),
        tally: Some(Tally::Retried),
        used,
    }
}

/// A part of the response body comes: it is kept if there is a callback to get
/// it. The request fails if the body grows too large, or if the buffers have no
/// room for the part.
pub open spec fn take_chunk(
    transfer: TransferView,
    used: nat,
    status: u16,
    headers: Map<Seq<char>, Seq<Seq<u8>>>,
    body: Seq<u8>,
    size: nat,
    chunk: Seq<u8>,
) -> StepView {
    if size + chunk.len() > MAX_BODY_SIZE {
        fail(transfer, used, Tally::Failed, "Response body exceeded memory limit"@)
    } else if transfer.success_cb is None {
        go_on(
            transfer,
            used,
            PhaseView::Receiving { status, headers, body, size: size + chunk.len() },
            ActionView::ReadChunk,
        )
    } else if used + chunk.len() > MAX_BUFFERED_BODY {
        fail(transfer, used, Tally::Failed, "rhttp buffered body limit reached"@)
    } else {
        go_on(
            transfer,
            used + chunk.len(),
            PhaseView::Receiving { status, headers, body: body + chunk, size: size + chunk.len() },
            ActionView::ReadChunk,
        )
    }
}

/// What an event makes of a request, while `used` body bytes are buffered over
/// all requests.
pub open spec fn next(transfer: TransferView, used: nat, event: EventView) -> StepView {
    match (transfer.phase, event) {
        (PhaseView::Finished, _) => go_on(
            transfer,
            used,
            PhaseView::Finished,
            ActionView::Ignore,
        ),
        (_, EventView::Cancelled) => fail(
            transfer,
            used,
            Tally::Cancelled,
            "Request cancelled"@,
        ),
        (PhaseView::Ready, EventView::Proceed) => go_on(
            transfer,
            used,
            PhaseView::Queued,
            ActionView::AcquirePermit,
        ),
        (PhaseView::Queued, EventView::PermitReady) => go_on(
            transfer,
            used,
            PhaseView::Sending,
            ActionView::Send,
        ),
        (PhaseView::Sending, EventView::SendFailed { transient, message }) => if transient
            && transfer.attempt < transfer.retries {
            try_again(transfer, used, None)
        } else {
            fail(transfer, used, Tally::Failed, message)
        },
        (PhaseView::Sending, EventView::Response { status, headers }) => if is_transient(status)
            && transfer.attempt < transfer.retries {
            try_again(transfer, used, retry_after(headers))
        } else {
            go_on(
                transfer,
                used,
                PhaseView::Receiving { status, headers, body: Seq::empty(), size: 0 },
                ActionView::ReadChunk,
            )
        },
        (PhaseView::Waiting, EventView::PauseOver) => go_on(
            transfer,
            used,
            PhaseView::Ready,
            ActionView::CheckCancelled,
        ),
        (
            PhaseView::Receiving { status, headers, body, size },
            EventView::Chunk(chunk),
        ) => take_chunk(transfer, used, status, headers, body, size, chunk),
        (PhaseView::Receiving { .. }, EventView::StreamFailed(message)) => fail(
            transfer,
            used,
            Tally::Failed,
            "Stream error: "@ + message,
        ),
        (PhaseView::Receiving { status, headers, body, .. }, EventView::StreamEnded) => StepView {
            transfer: transfer.moved(PhaseView::Finished),
            action: ActionView::Finish(
                success_report(transfer.success_cb, transfer.failed_cb, status, body, headers),
            ),
            tally: Some(Tally::Succeeded),
            used,
        },
        _ => go_on(transfer, used, transfer.phase, ActionView::Ignore),
    }
}

/// The counters after a step.
pub open spec fn counted(stats: StatsSnapshot, tally: Option<Tally>) -> StatsSnapshot {
    match tally {
        Some(tally) => tallied(stats, tally),
        None => stats,
    }
}

impl Transfer {
    #[verifier::type_invariant]
    spec fn valid(self) -> bool {
        self@.well_formed()
    }

    /// A request that is about to start its first attempt. The driver first
    /// has to see whether it was cancelled.
    pub fn new(
        success_cb: Option<LuaReference>,
        failed_cb: Option<LuaReference>,
        retries: usize,
        retry_delay: u128,
    ) -> (transfer: Self)
        ensures
            transfer@ == (TransferView {
                success_cb,
                failed_cb,
                retries: retries as nat,
                retry_delay: retry_delay as nat,
                attempt: 0,
                phase: PhaseView::Ready,
            }),
    {
        Transfer { success_cb, failed_cb, retries, retry_delay, attempt: 0, phase: Phase::Ready }
    }

    /// The body bytes that the request keeps buffered.
    pub fn buffered(&self) -> (bytes: usize)
        ensures
            bytes == self@.buffered(),
            self@.well_formed(),
    {
        proof {
            use_type_invariant(self);
        }
        match &self.phase {
            Phase::Receiving { body, .. } => body.len(),
            _ => 0,
        }
    }

    /// Ends the request without a response.
    fn end_failed(
        self,
        budget: &mut BodyBudget,
        message: String,
    ) -> (result: (Transfer, Action))
        requires
            self@.buffered() <= old(budget)@,
        ensures
            result.0@ == self@.moved(PhaseView::Finished),
            result.1@ == ActionView::Finish(
                failure_report(self@.success_cb, self@.failed_cb, message@),
            ),
            final(budget)@ == old(budget)@ - self@.buffered(),
    {
        proof {
            use_type_invariant(&self);
        }
        let bytes: usize = self.buffered();
        budget.release(bytes);
        let tasks = report_failure(self.success_cb, self.failed_cb, message);
        (Transfer { phase: Phase::Finished, ..self }, Action::Finish(tasks))
    }

    /// Has the request tried again after a pause.
    fn pause(self, headers: Option<&HeaderMap>) -> (result: (Transfer, Action))
        requires
            self@.attempt < self@.retries,
        ensures
            result.0@ == (TransferView {
                attempt: self@.attempt + 1,
                phase: PhaseView::Waiting,
                ..self@
            }),
            result.1@ == ActionView::Sleep(
                pause_nanos(asked_pause(headers), self@.attempt, self@.retry_delay),
            ),
    {
        proof {
            use_type_invariant(&self);
        }
        let nanos: u64 = retry_delay(headers, self.attempt, self.retry_delay);
        (
            Transfer { attempt: self.attempt + 1, phase: Phase::Waiting, ..self },
            Action::Sleep(nanos),
        )
    }

    /// Moves on by one event: counts what is to be counted, sets body bytes
    /// aside or gives them back, and says what the driver has to do.
    pub fn step(
        self,
        stats: &mut HttpStats,
        budget: &mut BodyBudget,
        event: Event,
    ) -> (result: (Transfer, Action))
        requires
            self@.buffered() <= old(budget)@,
        ensures
            result.0@ == next(self@, old(budget)@, event@).transfer,
            result.1@ == next(self@, old(budget)@, event@).action,
            final(stats)@ == counted(old(stats)@, next(self@, old(budget)@, event@).tally),
            final(budget)@ == next(self@, old(budget)@, event@).used,
            result.0@.well_formed(),
    {
        proof {
            use_type_invariant(&self);
        }
        match event {
            Event::Cancelled => {
                if let Phase::Finished = &self.phase {
                    return (self, Action::Ignore);
                }
                stats.cancelled();
                self.end_failed(budget, "Request cancelled".to_string())
            },
            Event::Proceed => {
                if let Phase::Ready = &self.phase {
                    return (Transfer { phase: Phase::Queued, ..self }, Action::AcquirePermit);
                }
                (self, Action::Ignore)
            },
            Event::PermitReady => {
                if let Phase::Queued = &self.phase {
                    return (Transfer { phase: Phase::Sending, ..self }, Action::Send);
                }
                (self, Action::Ignore)
            },
            Event::SendFailed { transient, message } => {
                if let Phase::Sending = &self.phase {
                    if transient && self.attempt < self.retries {
                        stats.retried();
                        return self.pause(None);
                    }
                    stats.failed();
                    return self.end_failed(budget, message);
                }
                (self, Action::Ignore)
            },
            Event::Response { status, headers } => {
                if let Phase::Sending = &self.phase {
                    if self.attempt < self.retries && retryable_status(status) {
                        stats.retried();
                        return self.pause(Some(&headers));
                    }
                    let phase = Phase::Receiving { status, headers, body: Vec::new(), size: 0 };
                    return (Transfer { phase, ..self }, Action::ReadChunk);
                }
                (self, Action::Ignore)
            },
            Event::PauseOver => {
                if let Phase::Waiting = &self.phase {
                    return (Transfer { phase: Phase::Ready, ..self }, Action::CheckCancelled);
                }
                (self, Action::Ignore)
            },
            Event::Chunk(chunk) => self.on_chunk(stats, budget, chunk),
            Event::StreamFailed(message) => {
                if let Phase::Receiving { .. } = &self.phase {
                    stats.failed();
                    let text = "Stream error: ".to_string().concat(message.as_str());
                    return self.end_failed(budget, text);
                }
                (self, Action::Ignore)
            },
            Event::StreamEnded => match self.phase {
                Phase::Receiving { status, headers, body, size } => {
                    stats.succeeded();
                    let tasks = report_success(
                        self.success_cb,
                        self.failed_cb,
                        status,
                        body,
                        headers,
                    );
                    (
                        Transfer {
                            success_cb: self.success_cb,
                            failed_cb: self.failed_cb,
                            retries: self.retries,
                            retry_delay: self.retry_delay,
                            attempt: self.attempt,
                            phase: Phase::Finished,
                        },
                        Action::Finish(tasks),
                    )
                },
                phase => (Transfer { phase, ..self }, Action::Ignore),
            },
        }
    }

    /// Takes in a part of the response body.
    fn on_chunk(
        self,
        stats: &mut HttpStats,
        budget: &mut BodyBudget,
        chunk: Vec<u8>,
    ) -> (result: (Transfer, Action))
        requires
            self@.buffered() <= old(budget)@,
        ensures
            result.0@ == next(self@, old(budget)@, EventView::Chunk(chunk@)).transfer,
            result.1@ == next(self@, old(budget)@, EventView::Chunk(chunk@)).action,
            final(stats)@ == counted(
                old(stats)@,
                next(self@, old(budget)@, EventView::Chunk(chunk@)).tally,
            ),
            final(budget)@ == next(self@, old(budget)@, EventView::Chunk(chunk@)).used,
    {
        proof {
            use_type_invariant(&self);
        }
        let so_far: usize = match &self.phase {
            Phase::Receiving { size, .. } => *size,
            _ => return (self, Action::Ignore),
        };
        let length: usize = chunk.len();
        if length > MAX_BODY_SIZE - so_far {
            stats.failed();
            return self.end_failed(budget, "Response body exceeded memory limit".to_string());
        }
        let keep = self.success_cb.is_some();
        if keep && !budget.try_reserve(length) {
            stats.failed();
            return self.end_failed(budget, "rhttp buffered body limit reached".to_string());
        }
        match self.phase {
            Phase::Receiving { status, headers, body, size } => {
                let mut body = body;
                let mut chunk = chunk;
                if keep {
                    body.append(&mut chunk);
                }
                let phase = Phase::Receiving { status, headers, body, size: size + length };
                (
                    Transfer {
                        success_cb: self.success_cb,
                        failed_cb: self.failed_cb,
                        retries: self.retries,
                        retry_delay: self.retry_delay,
                        attempt: self.attempt,
                        phase,
                    },
                    Action::ReadChunk,
                )
            },
            phase => (Transfer { phase, ..self }, Action::Ignore),
        }
    }
}

} // verus!
