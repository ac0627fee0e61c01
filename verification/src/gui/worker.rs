//! The thread that talks to the daemon for the window: what it is told, what it does, and what it
//! reports.
use vstd::prelude::*;

use super::replies::{
    action_outcome, debug_form, format_request_error, is_outcome, request_error_text, ActionOutcome,
};
use super::snapshot::{
    law_the_next_stage, refusal, request_at, settled, successor, taken, FetchStage, Snapshot, SnapshotFetch,
};
use crate::ipc::RequestError;
use crate::types::{IpcRequest, IpcResponse};

verus! {

/// The time without a command after which the state is read again, in seconds.
pub const REFRESH_INTERVAL_S: u64 = 2;

/// What the window tells the worker.
#[derive(PartialEq, Eq, Debug)]
pub enum WorkerCommand {
    Refresh,
    Request { label: String, request: IpcRequest, refresh_after: bool },
    Quit,
}

/// What the worker reports to the window.
#[derive(PartialEq, Eq, Debug)]
pub enum WorkerEvent {
    Snapshot(Result<Snapshot, String>),
    Action { label: String, result: Result<ActionOutcome, String> },
}

/// What the worker wakes up to.
#[derive(PartialEq, Eq, Debug)]
pub enum Wake {
    Command(WorkerCommand),
    /// No command came for the whole interval.
    Timeout,
    /// The window is gone.
    Disconnected,
}

/// What the worker does next.
#[derive(PartialEq, Eq, Debug)]
pub enum WorkerTask {
    /// Read the state and report it.
    Fetch,
    /// Pass a request on and report the outcome; then read the state, if asked to.
    Act { label: String, request: IpcRequest, refresh_after: bool },
    Wait,
    Quit,
}

/// What the worker does when it wakes up.
pub open spec fn task_of(wake: Wake) -> WorkerTask {
    match wake {
        Wake::Timeout | Wake::Command(WorkerCommand::Refresh) => WorkerTask::Fetch,
        Wake::Command(WorkerCommand::Request { label, request, refresh_after }) => WorkerTask::Act {
            label,
            request,
            refresh_after,
        },
        Wake::Disconnected | Wake::Command(WorkerCommand::Quit) => WorkerTask::Quit,
    }
}

/// What the worker does when it wakes up.
pub fn worker_task(wake: Wake) -> (task: WorkerTask)
    ensures
        task == task_of(wake),
{
    match wake {
        Wake::Timeout => WorkerTask::Fetch,
        Wake::Disconnected => WorkerTask::Quit,
        Wake::Command(command) => match command {
            WorkerCommand::Refresh => WorkerTask::Fetch,
            WorkerCommand::Request { label, request, refresh_after } => WorkerTask::Act {
                label,
                request,
                refresh_after,
            },
            WorkerCommand::Quit => WorkerTask::Quit,
        },
    }
}

/// What the worker does after an action.
pub open spec fn task_after(refresh_after: bool) -> WorkerTask {
    if refresh_after {
        WorkerTask::Fetch
    } else {
        WorkerTask::Wait
    }
}

/// What the worker does after an action: the state is read again whether the action succeeded or
/// not, for a refused request may have been remembered all the same.
pub fn after_action(refresh_after: bool) -> (task: WorkerTask)
    ensures
        task == task_after(refresh_after),
{
    if refresh_after {
        WorkerTask::Fetch
    } else {
        WorkerTask::Wait
    }
}

/// `event` reports the action `label` that was answered with `reply`.
pub open spec fn reports_action(
    event: WorkerEvent,
    label: String,
    reply: Result<IpcResponse, RequestError>,
) -> bool {
    event matches WorkerEvent::Action { label: shown, result } && shown == label && match reply {
        Ok(response) => is_outcome(result, response, debug_form(response)),
        Err(error) => result matches Err(text) && text@ == request_error_text(error),
    }
}

/// The report of an action that was answered with `reply`.
pub fn action_event(label: String, reply: Result<IpcResponse, RequestError>) -> (event: WorkerEvent)
    ensures
        reports_action(event, label, reply),
{
    let result = match reply {
        Ok(response) => action_outcome(response),
        Err(error) => Err(format_request_error(&error)),
    };
    WorkerEvent::Action { label, result }
}

/// How far a fetch has come.
pub enum Progress {
    /// There is more to ask.
    Ask(SnapshotFetch),
    /// The fetch is over; this is reported.
    Report(WorkerEvent),
}

/// Whether an answer to a fetch that stands at `stage` ends it.
pub open spec fn is_last(fetch: SnapshotFetch, response: IpcResponse) -> bool {
    match taken(fetch.stage, fetch.snapshot, response) {
        Some(snapshot) => settled(
            snapshot.capabilities->Some_0,
            successor(fetch.stage),
        ) is Done,
        None => true,
    }
}

/// `progress` is how far the fetch has come with the answer `reply`, at the time `now`.
pub open spec fn steps(
    fetch: SnapshotFetch,
    reply: Result<IpcResponse, RequestError>,
    now: u64,
    progress: Progress,
) -> bool {
    match reply {
        Err(error) => progress matches Progress::Report(WorkerEvent::Snapshot(Err(text)))
            && text@ == request_error_text(error),
        Ok(response) => match taken(fetch.stage, fetch.snapshot, response) {
            None => progress matches Progress::Report(WorkerEvent::Snapshot(Err(text)))
                && text@ == refusal(fetch.stage, response),
            Some(snapshot) => if is_last(fetch, response) {
                progress == Progress::Report(
                    WorkerEvent::Snapshot(
                        Ok(SnapshotFetch { stage: FetchStage::Done, snapshot }.finished(now)),
                    ),
                )
            } else {
                progress matches Progress::Ask(next) && next.wf() && next.snapshot == snapshot
                    && next.stage == settled(
                    snapshot.capabilities->Some_0,
                    successor(fetch.stage),
                )
            },
        },
    }
}

/// Takes the answer to a fetch's last request in. The first request that is not answered, and the
/// first answer that does not fit, end the fetch.
pub fn fetch_step(fetch: SnapshotFetch, reply: Result<IpcResponse, RequestError>, now: u64) -> (progress:
    Progress)
    requires
        fetch.wf(),
        !(fetch.stage is Done),
    ensures
        steps(fetch, reply, now, progress),
{
    let response = match reply {
        Ok(response) => response,
        Err(error) => {
            return Progress::Report(WorkerEvent::Snapshot(Err(format_request_error(&error))));
        },
    };
    match fetch.accept(response) {
        Err(text) => Progress::Report(WorkerEvent::Snapshot(Err(text))),
        Ok(next) => {
            if next.stage == FetchStage::Done {
                Progress::Report(WorkerEvent::Snapshot(Ok(next.finish(now))))
            } else {
                Progress::Ask(next)
            }
        },
    }
}

/// What wakes the worker up: it reads the state when it is told to and when nothing came for the whole
/// interval, passes a request on as it was given, and ends with the window.
pub proof fn law_what_the_worker_does(wake: Wake)
    ensures
        task_of(wake) is Fetch <==> wake is Timeout || wake == Wake::Command(WorkerCommand::Refresh),
        task_of(wake) is Quit <==> wake is Disconnected || wake == Wake::Command(
            WorkerCommand::Quit,
        ),
        wake matches Wake::Command(
            WorkerCommand::Request { label, request, refresh_after },
        ) ==> task_of(wake) == (WorkerTask::Act { label, request, refresh_after }),
        task_of(wake) is Act ==> (wake matches Wake::Command(command) && command is Request),
        !(task_of(wake) is Wait),
{
}

/// A fetch ends with an answer that is refused, and otherwise exactly when the machine has nothing
/// more to say, by the fields of its capabilities.
pub proof fn law_when_a_fetch_ends(fetch: SnapshotFetch, response: IpcResponse)
    requires
        !(fetch.stage is Done),
    ensures
        taken(fetch.stage, fetch.snapshot, response) is None ==> is_last(fetch, response),
        taken(fetch.stage, fetch.snapshot, response) matches Some(known) ==> ({
            let capabilities = known.capabilities->Some_0;
            let keyboard = capabilities.kbd.on_off || capabilities.kbd.levels
                || capabilities.kbd.custom;
            let profiles = capabilities.power_profiles@.len() > 0;
            is_last(fetch, response) <==> match fetch.stage {
                FetchStage::Capabilities => false,
                FetchStage::System => false,
                FetchStage::Settings => capabilities.sensors@.len() == 0 && capabilities.fans@.len()
                    == 0 && !capabilities.charge.supported && !profiles && !keyboard,
                FetchStage::Temperatures => capabilities.fans@.len() == 0
                    && !capabilities.charge.supported && !profiles && !keyboard,
                FetchStage::Fans => !capabilities.charge.supported && !profiles && !keyboard,
                FetchStage::Charge => !profiles && !keyboard,
                FetchStage::PowerProfile => !keyboard,
                FetchStage::Keyboard => true,
                FetchStage::Done => true,
            }
        }),
{
    if let Some(known) = taken(fetch.stage, fetch.snapshot, response) {
        law_the_next_stage(known.capabilities->Some_0);
    }
}

/// The state is read after an action exactly if that was asked for.
pub proof fn law_what_follows_an_action(refresh_after: bool)
    ensures
        task_after(refresh_after) is Fetch <==> refresh_after,
        task_after(refresh_after) is Wait <==> !refresh_after,
{
}

/// The report of an action carries the name of the action, and fails exactly if the request was not
/// answered or answered with an error.
pub proof fn law_the_report_of_an_action(
    event: WorkerEvent,
    label: String,
    reply: Result<IpcResponse, RequestError>,
)
    requires
        reports_action(event, label, reply),
    ensures
        event matches WorkerEvent::Action { label: shown, result } && {
            &&& shown == label
            &&& result is Err <==> (reply is Err || reply->Ok_0 is Error)
            &&& reply matches Err(error) ==> result->Err_0@ == request_error_text(error)
            &&& reply matches Ok(response) ==> is_outcome(result, response, debug_form(response))
        },
{
}

/// A step of a fetch: the first request that is not answered and the first answer that does not fit
/// end it, with their reason; the last answer ends it with everything that was read, at that time;
/// and any other answer is taken in, and something is left to ask.
pub proof fn law_a_step_of_a_fetch(
    fetch: SnapshotFetch,
    reply: Result<IpcResponse, RequestError>,
    now: u64,
    progress: Progress,
)
    requires
        fetch.wf(),
        !(fetch.stage is Done),
        steps(fetch, reply, now, progress),
    ensures
        reply matches Err(error) ==> (progress matches Progress::Report(
            WorkerEvent::Snapshot(Err(text)),
        ) && text@ == request_error_text(error)),
        reply matches Ok(response) ==> (taken(fetch.stage, fetch.snapshot, response) is None ==> (
        progress matches Progress::Report(WorkerEvent::Snapshot(Err(text))) && text@ == refusal(
            fetch.stage,
            response,
        ))),
        reply matches Ok(response) ==> (taken(fetch.stage, fetch.snapshot, response) matches Some(
            known,
        ) ==> match progress {
            Progress::Ask(next) => {
                &&& !is_last(fetch, response)
                &&& next.wf()
                &&& next.snapshot == known
                &&& request_at(next.stage) is Some
            },
            Progress::Report(event) => {
                &&& is_last(fetch, response)
                &&& event matches WorkerEvent::Snapshot(Ok(read)) && {
                    &&& read.updated_at == Some(now)
                    &&& read == (Snapshot { updated_at: read.updated_at, ..known })
                }
            },
        }),
{
    if let Ok(response) = reply {
        if let Some(known) = taken(fetch.stage, fetch.snapshot, response) {
            law_the_next_stage(known.capabilities->Some_0);
        }
    }
}

} // verus!
