//! What a finished request hands to the callbacks of the script side.

use reqwest::header::HeaderMap;
use vstd::multiset::Multiset;
use vstd::prelude::*;

use crate::headers::{header_contents, header_table, response_header_table};
use crate::limits::CALLBACK_BUDGET_NANOS;
use crate::table::{pairs_view, table_map};

verus! {

/// A value that the script side keeps for the client, such as a callback. It
/// has to be released once.
pub type LuaReference = i32;

/// Work for the script side.
#[derive(Debug)]
pub enum CallbackTask {
    /// Call with a status, a body and headers; then release.
    Success(LuaReference, u16, Vec<u8>, HeaderMap),
    /// Call with an error; then release.
    Failed(LuaReference, String),
    /// Release.
    DropRef(LuaReference),
}

/// What a [`CallbackTask`] holds.
#[verifier::ext_equal]
pub enum CallbackTaskView {
    /// Call with a status, a body and headers; then release.
    Success(LuaReference, u16, Seq<u8>, Map<Seq<char>, Seq<Seq<u8>>>),
    /// Call with an error; then release.
    Failed(LuaReference, Seq<char>),
    /// Release.
    DropRef(LuaReference),
}

impl View for CallbackTask {
    type V = CallbackTaskView;

    open spec fn view(&self) -> CallbackTaskView {
        match self {
            CallbackTask::Success(callback, status, body, headers) => CallbackTaskView::Success(
                *callback,
                *status,
                body@,
                header_contents(*headers),
            ),
            CallbackTask::Failed(callback, message) => CallbackTaskView::Failed(
                *callback,
                message@,
            ),
            CallbackTask::DropRef(callback) => CallbackTaskView::DropRef(*callback),
        }
    }
}

/// Tasks, each by its view.
pub open spec fn tasks_view(tasks: Seq<CallbackTask>) -> Seq<CallbackTaskView> {
    tasks.map_values(|task: CallbackTask| task@)
}

/// The reference that a task releases.
pub open spec fn released_by(task: CallbackTaskView) -> LuaReference {
    match task {
        CallbackTaskView::Success(callback, _, _, _) => callback,
        CallbackTaskView::Failed(callback, _) => callback,
        CallbackTaskView::DropRef(callback) => callback,
    }
}

/// The references that tasks release.
pub open spec fn released(tasks: Seq<CallbackTaskView>) -> Multiset<LuaReference> {
    tasks.map_values(|task: CallbackTaskView| released_by(task)).to_multiset()
}

/// The references of the callbacks of a request.
pub open spec fn held(
    success_cb: Option<LuaReference>,
    failed_cb: Option<LuaReference>,
) -> Multiset<LuaReference> {
    let success = match success_cb {
        Some(callback) => Multiset::singleton(callback),
        None => Multiset::empty(),
    };
    let failed = match failed_cb {
        Some(callback) => Multiset::singleton(callback),
        None => Multiset::empty(),
    };
    success.add(failed)
}

/// The body bytes that a task keeps buffered.
pub open spec fn task_bytes(task: CallbackTaskView) -> nat {
    match task {
        CallbackTaskView::Success(_, _, body, _) => body.len(),
        _ => 0,
    }
}

/// The body bytes that tasks keep buffered.
pub open spec fn tasks_bytes(tasks: Seq<CallbackTaskView>) -> nat
    decreases tasks.len(),
{
    if tasks.len() == 0 {
        0
    } else {
        tasks_bytes(tasks.drop_last()) + task_bytes(tasks.last())
    }
}

/// The tasks of a request that failed: its failure callback gets the error, its
/// success callback is let go.
pub open spec fn failure_report(
    success_cb: Option<LuaReference>,
    failed_cb: Option<LuaReference>,
    message: Seq<char>,
) -> Seq<CallbackTaskView> {
    let failed = match failed_cb {
        Some(callback) => seq![CallbackTaskView::Failed(callback, message)],
        None => seq![],
    };
    match success_cb {
        Some(callback) => failed.push(CallbackTaskView::DropRef(callback)),
        None => failed,
    }
}

/// The tasks of a request that succeeded: its success callback gets the
/// response, its failure callback is let go.
pub open spec fn success_report(
    success_cb: Option<LuaReference>,
    failed_cb: Option<LuaReference>,
    status: u16,
    body: Seq<u8>,
    headers: Map<Seq<char>, Seq<Seq<u8>>>,
) -> Seq<CallbackTaskView> {
    let success = match success_cb {
        Some(callback) => seq![CallbackTaskView::Success(callback, status, body, headers)],
        None => seq![],
    };
    match failed_cb {
        Some(callback) => success.push(CallbackTaskView::DropRef(callback)),
        None => success,
    }
}

/// A request that failed releases each of its callbacks once, and keeps no body
/// buffered.
pub proof fn law_failure_releases_callbacks(
    success_cb: Option<LuaReference>,
    failed_cb: Option<LuaReference>,
    message: Seq<char>,
)
    ensures
        released(failure_report(success_cb, failed_cb, message)) == held(success_cb, failed_cb),
        tasks_bytes(failure_report(success_cb, failed_cb, message)) == 0,
{
    broadcast use vstd::seq_lib::group_to_multiset_ensures;

    let tasks = failure_report(success_cb, failed_cb, message);
    let references = tasks.map_values(|task: CallbackTaskView| released_by(task));
    reveal_with_fuel(tasks_bytes, 3);
    let none = Seq::<LuaReference>::empty();
    match (failed_cb, success_cb) {
        (Some(f), Some(s)) => {
            assert(references =~= none.push(f).push(s));
        },
        (Some(f), None) => {
            assert(references =~= none.push(f));
        },
        (None, Some(s)) => {
            assert(references =~= none.push(s));
        },
        (None, None) => {
            assert(references =~= none);
        },
    }
    assert(released(tasks) =~= held(success_cb, failed_cb));
}

/// A request that succeeded releases each of its callbacks once, and keeps its
/// body buffered if a callback is to get it.
pub proof fn law_success_releases_callbacks(
    success_cb: Option<LuaReference>,
    failed_cb: Option<LuaReference>,
    status: u16,
    body: Seq<u8>,
    headers: Map<Seq<char>, Seq<Seq<u8>>>,
)
    ensures
        released(success_report(success_cb, failed_cb, status, body, headers)) == held(
            success_cb,
            failed_cb,
        ),
        tasks_bytes(success_report(success_cb, failed_cb, status, body, headers)) == (
        if success_cb is Some {
            body.len()
        } else {
            0
        }),
{
    broadcast use vstd::seq_lib::group_to_multiset_ensures;

    let tasks = success_report(success_cb, failed_cb, status, body, headers);
    let references = tasks.map_values(|task: CallbackTaskView| released_by(task));
    reveal_with_fuel(tasks_bytes, 3);
    let none = Seq::<LuaReference>::empty();
    match (success_cb, failed_cb) {
        (Some(s), Some(f)) => {
            assert(references =~= none.push(s).push(f));
            assert(tasks.drop_last() =~= seq![
                CallbackTaskView::Success(s, status, body, headers),
            ]);
        },
        (Some(s), None) => {
            assert(references =~= none.push(s));
        },
        (None, Some(f)) => {
            assert(references =~= none.push(f));
        },
        (None, None) => {
            assert(references =~= none);
        },
    }
    assert(released(tasks) =~= held(success_cb, failed_cb));
}

/// Reports the failure of a request to its callbacks.
pub fn report_failure(
    success_cb: Option<LuaReference>,
    failed_cb: Option<LuaReference>,
    message: String,
) -> (tasks: Vec<CallbackTask>)
    ensures
        tasks_view(tasks@) == failure_report(success_cb, failed_cb, message@),
{
    let mut tasks: Vec<CallbackTask> = Vec::new();
    if let Some(callback) = failed_cb {
        tasks.push(CallbackTask::Failed(callback, message));
    }
    if let Some(callback) = success_cb {
        tasks.push(CallbackTask::DropRef(callback));
    }
    assert(tasks_view(tasks@) =~= failure_report(success_cb, failed_cb, message@));
    tasks
}

/// Reports a response to the callbacks of its request.
pub fn report_success(
    success_cb: Option<LuaReference>,
    failed_cb: Option<LuaReference>,
    status: u16,
    body: Vec<u8>,
    headers: HeaderMap,
) -> (tasks: Vec<CallbackTask>)
    ensures
        tasks_view(tasks@) == success_report(
            success_cb,
            failed_cb,
            status,
            body@,
            header_contents(headers),
        ),
{
    let ghost contents = header_contents(headers);
    let ghost bytes = body@;
    let mut tasks: Vec<CallbackTask> = Vec::new();
    if let Some(callback) = success_cb {
        tasks.push(CallbackTask::Success(callback, status, body, headers));
    }
    if let Some(callback) = failed_cb {
        tasks.push(CallbackTask::DropRef(callback));
    }
    assert(tasks_view(tasks@) =~= success_report(success_cb, failed_cb, status, bytes, contents));
    tasks
}

/// An argument of a callback.
#[derive(Debug)]
pub enum Argument {
    /// A number.
    Integer(u16),
    /// A string of any bytes.
    Bytes(Vec<u8>),
    /// A string.
    Text(String),
    /// A table with one value per name.
    Table(Vec<(String, Vec<u8>)>),
}

/// What an [`Argument`] holds.
#[verifier::ext_equal]
pub enum ArgumentView {
    /// A number.
    Integer(u16),
    /// A string of any bytes.
    Bytes(Seq<u8>),
    /// A string.
    Text(Seq<char>),
    /// A table with one value per name.
    Table(Map<Seq<char>, Seq<u8>>),
}

impl View for Argument {
    type V = ArgumentView;

    open spec fn view(&self) -> ArgumentView {
        match self {
            Argument::Integer(number) => ArgumentView::Integer(*number),
            Argument::Bytes(bytes) => ArgumentView::Bytes(bytes@),
            Argument::Text(text) => ArgumentView::Text(text@),
            Argument::Table(table) => ArgumentView::Table(table_map(pairs_view(table@))),
        }
    }
}

/// How a task is carried out: the callback is called with the arguments, if
/// there are any, and its reference is released.
#[derive(Debug)]
pub struct Delivery {
    /// The callback.
    pub reference: LuaReference,
    /// The arguments of the call, if there is a call.
    pub arguments: Option<Vec<Argument>>,
    /// The body bytes that were buffered for it.
    pub buffered: usize,
}

/// The arguments that a task calls its callback with.
pub open spec fn arguments_of(task: CallbackTaskView) -> Option<Seq<ArgumentView>> {
    match task {
        CallbackTaskView::Success(_, status, body, headers) => Some(
            seq![
                ArgumentView::Integer(status),
                ArgumentView::Bytes(body),
                ArgumentView::Table(header_table(headers)),
            ],
        ),
        CallbackTaskView::Failed(_, message) => Some(seq![ArgumentView::Text(message)]),
        CallbackTaskView::DropRef(_) => None,
    }
}

/// Arguments, each by its view.
pub open spec fn arguments_view(arguments: Option<Vec<Argument>>) -> Option<Seq<ArgumentView>> {
    match arguments {
        Some(list) => Some(list@.map_values(|argument: Argument| argument@)),
        None => None,
    }
}

/// Turns a task into the call that carries it out.
pub fn deliver(task: CallbackTask) -> (delivery: Delivery)
    ensures
        delivery.reference == released_by(task@),
        arguments_view(delivery.arguments) == arguments_of(task@),
        delivery.buffered == task_bytes(task@),
        task matches CallbackTask::Success(callback, status, body, _) ==> {
            &&& delivery.reference == callback
            &&& delivery.buffered == body@.len()
            &&& delivery.arguments matches Some(list)
            &&& list@.len() == 3
            &&& list@[0] == Argument::Integer(status)
            &&& list@[1] matches Argument::Bytes(given)
            &&& given@ == body@
            &&& list@[2] is Table
        },
        task matches CallbackTask::Failed(callback, message) ==> {
            &&& delivery.reference == callback
            &&& delivery.arguments matches Some(list)
            &&& list@.len() == 1
            &&& list@[0] matches Argument::Text(given)
            &&& given@ == message@
        },
        task matches CallbackTask::DropRef(callback) ==> {
            &&& delivery.reference == callback
            &&& delivery.arguments is None
        },
{
    let ghost view = task@;
    match task {
        CallbackTask::Success(callback, status, body, headers) => {
            let table = response_header_table(&headers);
            let buffered: usize = body.len();
            let mut arguments: Vec<Argument> = Vec::new();
            arguments.push(Argument::Integer(status));
            arguments.push(Argument::Bytes(body));
            arguments.push(Argument::Table(table));
            assert(arguments_view(Some(arguments))->0 =~= arguments_of(view)->0);
            Delivery { reference: callback, arguments: Some(arguments), buffered }
        },
        CallbackTask::Failed(callback, message) => {
            let mut arguments: Vec<Argument> = Vec::new();
            arguments.push(Argument::Text(message));
            assert(arguments_view(Some(arguments))->0 =~= arguments_of(view)->0);
            Delivery { reference: callback, arguments: Some(arguments), buffered: 0 }
        },
        CallbackTask::DropRef(callback) => Delivery {
            reference: callback,
            arguments: None,
            buffered: 0,
        },
    }
}

/// Whether a frame that has spent this many nanoseconds on tasks may take
/// another one.
pub fn may_deliver_more(elapsed_nanos: u128) -> (more: bool)
    ensures
        more == (elapsed_nanos < CALLBACK_BUDGET_NANOS),
{
    elapsed_nanos < CALLBACK_BUDGET_NANOS
}

/// A failure calls the failure callback once, with the error, and lets the success
/// callback go without a call; without a callback nothing is done for it.
pub proof fn law_failure_reaches_its_callback(
    success: LuaReference,
    failed: LuaReference,
    message: Seq<char>,
)
    ensures
        failure_report(Some(success), Some(failed), message) == seq![
            CallbackTaskView::Failed(failed, message),
            CallbackTaskView::DropRef(success),
        ],
        failure_report(None, Some(failed), message) == seq![
            CallbackTaskView::Failed(failed, message),
        ],
        failure_report(Some(success), None, message) == seq![CallbackTaskView::DropRef(success)],
        failure_report(None, None, message) == Seq::<CallbackTaskView>::empty(),
{
    assert(failure_report(Some(success), Some(failed), message) =~= seq![
        CallbackTaskView::Failed(failed, message),
        CallbackTaskView::DropRef(success),
    ]);
    assert(failure_report(Some(success), None, message) =~= seq![
        CallbackTaskView::DropRef(success),
    ]);
}

/// A response calls the success callback once, with its status, its whole body and
/// its headers, and lets the failure callback go without a call; without a
/// callback nothing is done for it.
pub proof fn law_response_reaches_its_callback(
    success: LuaReference,
    failed: LuaReference,
    status: u16,
    body: Seq<u8>,
    headers: Map<Seq<char>, Seq<Seq<u8>>>,
)
    ensures
        success_report(Some(success), Some(failed), status, body, headers) == seq![
            CallbackTaskView::Success(success, status, body, headers),
            CallbackTaskView::DropRef(failed),
        ],
        success_report(Some(success), None, status, body, headers) == seq![
            CallbackTaskView::Success(success, status, body, headers),
        ],
        success_report(None, Some(failed), status, body, headers) == seq![
            CallbackTaskView::DropRef(failed),
        ],
        success_report(None, None, status, body, headers) == Seq::<CallbackTaskView>::empty(),
{
    assert(success_report(Some(success), Some(failed), status, body, headers) =~= seq![
        CallbackTaskView::Success(success, status, body, headers),
        CallbackTaskView::DropRef(failed),
    ]);
    assert(success_report(None, Some(failed), status, body, headers) =~= seq![
        CallbackTaskView::DropRef(failed),
    ]);
}

/// A success callback gets three arguments, whatever the status: the status, the
/// body byte for byte, and a table with the last value of each header. The room
/// that its delivery gives back is that of the body, and the callback is released.
pub proof fn law_response_is_delivered_whole(
    callback: LuaReference,
    status: u16,
    body: Seq<u8>,
    headers: Map<Seq<char>, Seq<Seq<u8>>>,
)
    ensures
        ({
            let task = CallbackTaskView::Success(callback, status, body, headers);
            let arguments = arguments_of(task)->0;
            &&& arguments_of(task) is Some
            &&& arguments.len() == 3
            &&& arguments[0] == ArgumentView::Integer(status)
            &&& arguments[1] matches ArgumentView::Bytes(given)
            &&& given.len() == body.len()
            &&& forall|i: int| 0 <= i < body.len() ==> #[trigger] given[i] == body[i]
            &&& arguments[2] matches ArgumentView::Table(table)
            &&& forall|name: Seq<char>| #[trigger]
                table.contains_key(name) == headers.contains_key(name)
            &&& forall|name: Seq<char>| #[trigger]
                headers.contains_key(name) ==> table[name] == headers[name][headers[name].len()
                    - 1]
            &&& task_bytes(task) == given.len()
            &&& released_by(task) == callback
        }),
{
}

/// A failure callback gets the error as its one argument; a callback that is let go
/// is not called. Both are released, and neither gives room back.
pub proof fn law_failure_is_delivered(callback: LuaReference, message: Seq<char>)
    ensures
        ({
            let task = CallbackTaskView::Failed(callback, message);
            &&& arguments_of(task) == Some(seq![ArgumentView::Text(message)])
            &&& task_bytes(task) == 0
            &&& released_by(task) == callback
        }),
        ({
            let task = CallbackTaskView::DropRef(callback);
            &&& arguments_of(task) is None
            &&& task_bytes(task) == 0
            &&& released_by(task) == callback
        }),
{
}

/// The view of a task is the task, and that of an argument the argument.
pub proof fn law_views_of_tasks(task: CallbackTask, argument: Argument)
    ensures
        task matches CallbackTask::Success(callback, status, body, headers) ==> task@
            == CallbackTaskView::Success(callback, status, body@, header_contents(headers)),
        task matches CallbackTask::Failed(callback, message) ==> task@ == CallbackTaskView::Failed(
            callback,
            message@,
        ),
        task matches CallbackTask::DropRef(callback) ==> task@ == CallbackTaskView::DropRef(
            callback,
        ),
        argument matches Argument::Integer(number) ==> argument@ == ArgumentView::Integer(number),
        argument matches Argument::Bytes(bytes) ==> argument@ == ArgumentView::Bytes(bytes@),
        argument matches Argument::Text(text) ==> argument@ == ArgumentView::Text(text@),
        argument matches Argument::Table(table) ==> argument@ == ArgumentView::Table(
            table_map(pairs_view(table@)),
        ),
{
}

/// The views of lists hold the view of each element, in order.
pub proof fn law_views_of_lists(tasks: Seq<CallbackTask>, arguments: Vec<Argument>)
    ensures
        tasks_view(tasks).len() == tasks.len(),
        forall|i: int| 0 <= i < tasks.len() ==> #[trigger] tasks_view(tasks)[i] == tasks[i]@,
        arguments_view(Some(arguments)) is Some,
        arguments_view(Some(arguments))->0.len() == arguments@.len(),
        forall|i: int|
            0 <= i < arguments@.len() ==> #[trigger] arguments_view(Some(arguments))->0[i]
                == arguments@[i]@,
        arguments_view(None) is None,
{
}

} // verus!
