//! Getting the port driver ready: its service is brought to run, then its library is loaded.
use vstd::prelude::*;

use super::error::{DriverExport, DriverState, EcError};
use crate::session::{asks, Dialogue, Session, Stop};

verus! {

pub const ERROR_SERVICE_DOES_NOT_EXIST: i32 = 1060;

pub const ERROR_SERVICE_ALREADY_RUNNING: i32 = 1056;

/// How long the service may take to change its state, in milliseconds.
pub const SERVICE_TIMEOUT_MS: u64 = 10_000;

/// The pause between two looks at the service, in milliseconds.
pub const SERVICE_POLL_MS: u64 = 100;

/// What is asked of the system.
#[derive(Clone, Copy, PartialEq, Eq, Debug, Structural)]
pub enum DriverRequest {
    /// Connect to the service manager.
    OpenManager,
    /// Open the driver's service.
    OpenService,
    /// Tell the state of the service.
    QueryState,
    StartService,
    /// Set a deadline this many milliseconds from now.
    StartTimer(u64),
    TimerExpired,
    Sleep(u64),
    LoadLibrary,
    /// Look a function of the library up.
    FindExport(DriverExport),
    /// Ask the library whether the driver is open.
    IsDriverOpen,
}

/// What the system answers.
#[derive(Clone, Copy, PartialEq, Eq, Debug, Structural)]
pub enum DriverReply {
    Done,
    State(DriverState),
    Flag(bool),
    /// A failure, with the error code of the system where it gave one.
    Fault { code: Option<i32>, fault: u32 },
}

pub type DriverIo = Session<DriverRequest, DriverReply>;

pub type DriverTalk = Dialogue<DriverRequest, DriverReply>;

pub type DriverRun<T> = (DriverTalk, Result<T, Stop<EcError>>);

/// A run that asks for something to be done; a failure with the error code `forgiven` counts as
/// `false`, and success as `true`.
pub open spec fn attempt_run(d: DriverTalk, request: DriverRequest, forgiven: i32) -> DriverRun<
    bool,
> {
    match asks::<DriverRequest, DriverReply, EcError>(d, request) {
        (d, Err(stop)) => (d, Err(stop)),
        (d, Ok(DriverReply::Done)) => (d, Ok(true)),
        (d, Ok(DriverReply::Fault { code, fault })) => if code == Some(forgiven) {
            (d, Ok(false))
        } else {
            (d, Err(Stop::Failed(EcError::Fault(fault))))
        },
        (d, Ok(_)) => (d, Err(Stop::Failed(EcError::UnexpectedReply))),
    }
}

/// A run that asks for something to be done; a failure is reported as `failure`, or as itself.
pub open spec fn done_run(d: DriverTalk, request: DriverRequest, failure: Option<EcError>) -> DriverRun<
    (),
> {
    match asks::<DriverRequest, DriverReply, EcError>(d, request) {
        (d, Err(stop)) => (d, Err(stop)),
        (d, Ok(DriverReply::Done)) => (d, Ok(())),
        (d, Ok(DriverReply::Fault { code: _, fault })) => (
            d,
            Err(
                Stop::Failed(
                    match failure {
                        Some(error) => error,
                        None => EcError::Fault(fault),
                    },
                ),
            ),
        ),
        (d, Ok(_)) => (d, Err(Stop::Failed(EcError::UnexpectedReply))),
    }
}

/// A run that asks for the state of the service.
pub open spec fn state_run(d: DriverTalk) -> DriverRun<DriverState> {
    match asks::<DriverRequest, DriverReply, EcError>(d, DriverRequest::QueryState) {
        (d, Err(stop)) => (d, Err(stop)),
        (d, Ok(DriverReply::State(state))) => (d, Ok(state)),
        (d, Ok(DriverReply::Fault { code: _, fault })) => (
            d,
            Err(Stop::Failed(EcError::Fault(fault))),
        ),
        (d, Ok(_)) => (d, Err(Stop::Failed(EcError::UnexpectedReply))),
    }
}

/// A run that asks a question answered with yes or no.
pub open spec fn flag_run(d: DriverTalk, request: DriverRequest) -> DriverRun<bool> {
    match asks::<DriverRequest, DriverReply, EcError>(d, request) {
        (d, Err(stop)) => (d, Err(stop)),
        (d, Ok(DriverReply::Flag(yes))) => (d, Ok(yes)),
        (d, Ok(DriverReply::Fault { code: _, fault })) => (
            d,
            Err(Stop::Failed(EcError::Fault(fault))),
        ),
        (d, Ok(_)) => (d, Err(Stop::Failed(EcError::UnexpectedReply))),
    }
}

fn attempt(io: &mut DriverIo, request: DriverRequest, forgiven: i32) -> (result: Result<
    bool,
    Stop<EcError>,
>)
    ensures
        (final(io)@, result) == attempt_run(old(io)@, request, forgiven),
{
    match io.ask(request)? {
        DriverReply::Done => Ok(true),
        DriverReply::Fault { code, fault } => match code {
            Some(number) => {
                if *number == forgiven {
                    Ok(false)
                } else {
                    Err(Stop::Failed(EcError::Fault(*fault)))
                }
            },
            None => Err(Stop::Failed(EcError::Fault(*fault))),
        },
        _ => Err(Stop::Failed(EcError::UnexpectedReply)),
    }
}

fn done(io: &mut DriverIo, request: DriverRequest, failure: Option<EcError>) -> (result: Result<
    (),
    Stop<EcError>,
>)
    ensures
        (final(io)@, result) == done_run(old(io)@, request, failure),
{
    match io.ask(request)? {
        DriverReply::Done => Ok(()),
        DriverReply::Fault { code: _, fault } => match failure {
            Some(error) => Err(Stop::Failed(error)),
            None => Err(Stop::Failed(EcError::Fault(*fault))),
        },
        _ => Err(Stop::Failed(EcError::UnexpectedReply)),
    }
}

fn query_state(io: &mut DriverIo) -> (result: Result<DriverState, Stop<EcError>>)
    ensures
        (final(io)@, result) == state_run(old(io)@),
{
    match io.ask(DriverRequest::QueryState)? {
        DriverReply::State(state) => Ok(*state),
        DriverReply::Fault { code: _, fault } => Err(Stop::Failed(EcError::Fault(*fault))),
        _ => Err(Stop::Failed(EcError::UnexpectedReply)),
    }
}

fn flag(io: &mut DriverIo, request: DriverRequest) -> (result: Result<bool, Stop<EcError>>)
    ensures
        (final(io)@, result) == flag_run(old(io)@, request),
{
    match io.ask(request)? {
        DriverReply::Flag(yes) => Ok(*yes),
        DriverReply::Fault { code: _, fault } => Err(Stop::Failed(EcError::Fault(*fault))),
        _ => Err(Stop::Failed(EcError::UnexpectedReply)),
    }
}

/// Which change of state is waited for.
#[derive(Clone, Copy, PartialEq, Eq, Debug, Structural)]
pub enum Waiting {
    ForRunning,
    ForStopped,
}

/// What a look at the service tells about a change that is waited for: `Ok(true)` when it has
/// happened, `Ok(false)` while it is under way, and an error in any other state.
pub open spec fn change(waiting: Waiting, state: DriverState) -> Result<bool, EcError> {
    match waiting {
        Waiting::ForRunning => match state {
            DriverState::Running => Ok(true),
            DriverState::StartPending => Ok(false),
            _ => Err(EcError::ServiceLeftStarting(state)),
        },
        Waiting::ForStopped => match state {
            DriverState::Stopped => Ok(true),
            DriverState::StopPending => Ok(false),
            _ => Err(EcError::ServiceLeftStopping(state)),
        },
    }
}

/// The error of a change that takes too long.
pub open spec fn too_late(waiting: Waiting) -> EcError {
    match waiting {
        Waiting::ForRunning => EcError::ServiceStartTimeout,
        Waiting::ForStopped => EcError::ServiceStopTimeout,
    }
}

/// Looks at the service until the change has happened, the service has gone elsewhere, or the
/// deadline is reached.
pub open spec fn change_run(d: DriverTalk, waiting: Waiting) -> DriverRun<()>
    decreases d.left(),
{
    match state_run(d) {
        (d1, Err(stop)) => (d1, Err(stop)),
        (d1, Ok(state)) => match change(waiting, state) {
            Err(error) => (d1, Err(Stop::Failed(error))),
            Ok(true) => (d1, Ok(())),
            Ok(false) => match flag_run(d1, DriverRequest::TimerExpired) {
                (d2, Err(stop)) => (d2, Err(stop)),
                (d2, Ok(true)) => (d2, Err(Stop::Failed(too_late(waiting)))),
                (d2, Ok(false)) => match done_run(
                    d2,
                    DriverRequest::Sleep(SERVICE_POLL_MS),
                    None,
                ) {
                    (d3, Err(stop)) => (d3, Err(stop)),
                    (d3, Ok(())) => change_run(d3, waiting),
                },
            },
        },
    }
}

/// The wait for a change, deadline first.
pub open spec fn wait_run(d: DriverTalk, waiting: Waiting) -> DriverRun<()> {
    match done_run(d, DriverRequest::StartTimer(SERVICE_TIMEOUT_MS), None) {
        (d, Err(stop)) => (d, Err(stop)),
        (d, Ok(())) => change_run(d, waiting),
    }
}

fn change_of(waiting: Waiting, state: DriverState) -> (seen: Result<bool, EcError>)
    ensures
        seen == change(waiting, state),
{
    match waiting {
        Waiting::ForRunning => match state {
            DriverState::Running => Ok(true),
            DriverState::StartPending => Ok(false),
            _ => Err(EcError::ServiceLeftStarting(state)),
        },
        Waiting::ForStopped => match state {
            DriverState::Stopped => Ok(true),
            DriverState::StopPending => Ok(false),
            _ => Err(EcError::ServiceLeftStopping(state)),
        },
    }
}

fn wait_for(io: &mut DriverIo, waiting: Waiting) -> (result: Result<(), Stop<EcError>>)
    ensures
        (final(io)@, result) == wait_run(old(io)@, waiting),
{
    done(io, DriverRequest::StartTimer(SERVICE_TIMEOUT_MS), None)?;
    let ghost start = io@;
    loop
        invariant
            change_run(io@, waiting) == change_run(start, waiting),
            wait_run(old(io)@, waiting) == change_run(start, waiting),
        decreases io@.left(),
    {
        let state = query_state(io)?;
        match change_of(waiting, state) {
            Err(error) => {
                return Err(Stop::Failed(error));
            },
            Ok(true) => {
                return Ok(());
            },
            Ok(false) => {},
        }
        if flag(io, DriverRequest::TimerExpired)? {
            return match waiting {
                Waiting::ForRunning => Err(Stop::Failed(EcError::ServiceStartTimeout)),
                Waiting::ForStopped => Err(Stop::Failed(EcError::ServiceStopTimeout)),
            };
        }
        done(io, DriverRequest::Sleep(SERVICE_POLL_MS), None)?;
    }
}

/// Waits until the service runs.
pub fn wait_until_running(io: &mut DriverIo) -> (result: Result<(), Stop<EcError>>)
    ensures
        (final(io)@, result) == wait_run(old(io)@, Waiting::ForRunning),
{
    wait_for(io, Waiting::ForRunning)
}

/// Waits until the service has stopped.
pub fn wait_until_stopped(io: &mut DriverIo) -> (result: Result<(), Stop<EcError>>)
    ensures
        (final(io)@, result) == wait_run(old(io)@, Waiting::ForStopped),
{
    wait_for(io, Waiting::ForStopped)
}

/// Starting the service; that it runs already is no failure.
pub open spec fn start_run(d: DriverTalk) -> DriverRun<()> {
    match attempt_run(d, DriverRequest::StartService, ERROR_SERVICE_ALREADY_RUNNING) {
        (d, Ok(_)) => (d, Ok(())),
        (d, Err(stop)) => (d, Err(stop)),
    }
}

/// Starts the service.
pub fn start_service(io: &mut DriverIo) -> (result: Result<(), Stop<EcError>>)
    ensures
        (final(io)@, result) == start_run(old(io)@),
{
    attempt(io, DriverRequest::StartService, ERROR_SERVICE_ALREADY_RUNNING)?;
    Ok(())
}

/// Starting the service and waiting until it runs.
pub open spec fn start_and_wait_run(d: DriverTalk) -> DriverRun<()> {
    match start_run(d) {
        (d, Err(stop)) => (d, Err(stop)),
        (d, Ok(())) => wait_run(d, Waiting::ForRunning),
    }
}

/// Bringing a service in the state `state` to run.
pub open spec fn bring_up_run(d: DriverTalk, state: DriverState) -> DriverRun<()> {
    match state {
        DriverState::Running => (d, Ok(())),
        DriverState::StartPending => wait_run(d, Waiting::ForRunning),
        DriverState::Stopped => start_and_wait_run(d),
        DriverState::StopPending => match wait_run(d, Waiting::ForStopped) {
            (d, Err(stop)) => (d, Err(stop)),
            (d, Ok(())) => start_and_wait_run(d),
        },
        _ => (d, Err(Stop::Failed(EcError::ServiceState(state)))),
    }
}

/// Making sure that the service runs. Where there is no such service, the library brings the
/// driver along itself.
pub open spec fn ready_run(d: DriverTalk) -> DriverRun<()> {
    match done_run(d, DriverRequest::OpenManager, None) {
        (d, Err(stop)) => (d, Err(stop)),
        (d, Ok(())) => match attempt_run(
            d,
            DriverRequest::OpenService,
            ERROR_SERVICE_DOES_NOT_EXIST,
        ) {
            (d, Err(stop)) => (d, Err(stop)),
            (d, Ok(false)) => (d, Ok(())),
            (d, Ok(true)) => match state_run(d) {
                (d, Err(stop)) => (d, Err(stop)),
                (d, Ok(state)) => bring_up_run(d, state),
            },
        },
    }
}

/// Makes sure that the driver's service runs.
pub fn ensure_ready(io: &mut DriverIo) -> (result: Result<(), Stop<EcError>>)
    ensures
        (final(io)@, result) == ready_run(old(io)@),
{
    done(io, DriverRequest::OpenManager, None)?;
    if !attempt(io, DriverRequest::OpenService, ERROR_SERVICE_DOES_NOT_EXIST)? {
        return Ok(());
    }
    let state = query_state(io)?;
    match state {
        DriverState::Running => Ok(()),
        DriverState::StartPending => wait_until_running(io),
        DriverState::Stopped => {
            start_service(io)?;
            wait_until_running(io)
        },
        DriverState::StopPending => {
            wait_until_stopped(io)?;
            start_service(io)?;
            wait_until_running(io)
        },
        _ => Err(Stop::Failed(EcError::ServiceState(state))),
    }
}

/// Looking a function of the library up.
pub open spec fn export_run(d: DriverTalk, export: DriverExport) -> DriverRun<()> {
    done_run(d, DriverRequest::FindExport(export), Some(EcError::ExportMissing(export)))
}

/// Loading the library: its three functions are looked up, then it is asked whether the driver is
/// open.
pub open spec fn library_run(d: DriverTalk) -> DriverRun<()> {
    match done_run(d, DriverRequest::LoadLibrary, Some(EcError::LibraryMissing)) {
        (d, Err(stop)) => (d, Err(stop)),
        (d, Ok(())) => match export_run(d, DriverExport::IsInpOutDriverOpen) {
            (d, Err(stop)) => (d, Err(stop)),
            (d, Ok(())) => match export_run(d, DriverExport::Out32) {
                (d, Err(stop)) => (d, Err(stop)),
                (d, Ok(())) => match export_run(d, DriverExport::Inp32) {
                    (d, Err(stop)) => (d, Err(stop)),
                    (d, Ok(())) => match flag_run(d, DriverRequest::IsDriverOpen) {
                        (d, Err(stop)) => (d, Err(stop)),
                        (d, Ok(true)) => (d, Ok(())),
                        (d, Ok(false)) => (d, Err(Stop::Failed(EcError::DriverClosed))),
                    },
                },
            },
        },
    }
}

fn find_export(io: &mut DriverIo, export: DriverExport) -> (result: Result<(), Stop<EcError>>)
    ensures
        (final(io)@, result) == export_run(old(io)@, export),
{
    done(io, DriverRequest::FindExport(export), Some(EcError::ExportMissing(export)))
}

/// Getting access to the ports: the service is brought to run, then the library is loaded.
pub open spec fn access_run(d: DriverTalk) -> DriverRun<()> {
    match ready_run(d) {
        (d, Err(stop)) => (d, Err(stop)),
        (d, Ok(())) => library_run(d),
    }
}

/// Access to the ports, once it has been obtained.
pub struct RawPortIo {}

impl RawPortIo {
    /// Gets access to the ports: the service is brought to run, then the library is loaded.
    pub fn new(io: &mut DriverIo) -> (result: Result<RawPortIo, Stop<EcError>>)
        ensures
            (
                final(io)@,
                match result {
                    Ok(_) => Ok::<(), Stop<EcError>>(()),
                    Err(stop) => Err(stop),
                },
            ) == access_run(old(io)@),
    {
        ensure_ready(io)?;
        done(io, DriverRequest::LoadLibrary, Some(EcError::LibraryMissing))?;
        find_export(io, DriverExport::IsInpOutDriverOpen)?;
        find_export(io, DriverExport::Out32)?;
        find_export(io, DriverExport::Inp32)?;
        if !flag(io, DriverRequest::IsDriverOpen)? {
            return Err(Stop::Failed(EcError::DriverClosed));
        }
        Ok(RawPortIo {  })
    }
}

proof fn lemma_change_ends_where_it_should(d: DriverTalk, waiting: Waiting)
    requires
        0 <= d.used,
    ensures
        change_run(d, waiting).1 is Ok ==> ({
            let end = change_run(d, waiting).0;
            &&& end.used > 0
            &&& end.used <= end.replies.len()
            &&& end.replies == d.replies
            &&& end.replies[end.used - 1] == DriverReply::State(
                match waiting {
                    Waiting::ForRunning => DriverState::Running,
                    Waiting::ForStopped => DriverState::Stopped,
                },
            )
        }),
    decreases d.left(),
{
    let (d1, r) = state_run(d);
    let (d2, late) = flag_run(d1, DriverRequest::TimerExpired);
    let (d3, slept) = done_run(d2, DriverRequest::Sleep(SERVICE_POLL_MS), None);
    if r is Ok && late == Ok::<bool, Stop<EcError>>(false) && slept is Ok {
        lemma_change_ends_where_it_should(d3, waiting);
    }
}

/// Where a service exists, it is reported ready only on its own word: the last state read is
/// `Running`.
pub proof fn law_ready_means_running(d: DriverTalk)
    requires
        0 <= d.used,
        ready_run(d).1 is Ok,
    ensures
        ({
            let end = ready_run(d).0;
            ||| end.replies[end.used - 1] == DriverReply::State(DriverState::Running)
            ||| end.asked.last() == DriverRequest::OpenService
        }),
{
    let (d1, _) = done_run(d, DriverRequest::OpenManager, None);
    let (d2, opened) = attempt_run(d1, DriverRequest::OpenService, ERROR_SERVICE_DOES_NOT_EXIST);
    if opened == Ok::<bool, Stop<EcError>>(true) {
        let (d3, r) = state_run(d2);
        let state = r->Ok_0;
        if state == DriverState::StartPending {
            let d4 = done_run(d3, DriverRequest::StartTimer(SERVICE_TIMEOUT_MS), None).0;
            lemma_change_ends_where_it_should(d4, Waiting::ForRunning);
        } else if state == DriverState::Stopped {
            let d4 = start_run(d3).0;
            let d5 = done_run(d4, DriverRequest::StartTimer(SERVICE_TIMEOUT_MS), None).0;
            lemma_change_ends_where_it_should(d5, Waiting::ForRunning);
        } else if state == DriverState::StopPending {
            let stopping = done_run(d3, DriverRequest::StartTimer(SERVICE_TIMEOUT_MS), None).0;
            lemma_change_ends_where_it_should(stopping, Waiting::ForStopped);
            let d4 = wait_run(d3, Waiting::ForStopped).0;
            let d5 = start_run(d4).0;
            let d6 = done_run(d5, DriverRequest::StartTimer(SERVICE_TIMEOUT_MS), None).0;
            lemma_change_ends_where_it_should(d6, Waiting::ForRunning);
        }
    }
}

// ---- Bringing the service to run, in replies ----

/// What a look at the service means for a change: it has happened in one state only, it is under way
/// in one state only, and every other state is an error that names it.
pub proof fn law_a_change_has_two_states(state: DriverState)
    ensures
        state is Running <==> change(Waiting::ForRunning, state) == Ok::<bool, EcError>(true),
        state is StartPending <==> change(Waiting::ForRunning, state) == Ok::<bool, EcError>(false),
        !(state is Running) && !(state is StartPending) <==> change(Waiting::ForRunning, state)
            == Err::<bool, EcError>(EcError::ServiceLeftStarting(state)),
        state is Stopped <==> change(Waiting::ForStopped, state) == Ok::<bool, EcError>(true),
        state is StopPending <==> change(Waiting::ForStopped, state) == Ok::<bool, EcError>(false),
        !(state is Stopped) && !(state is StopPending) <==> change(Waiting::ForStopped, state)
            == Err::<bool, EcError>(EcError::ServiceLeftStopping(state)),
{
}

/// How a wait goes on, from what is answered first: it ends in the state that it waits for and in
/// every state that does not lead there; while the change is under way the clock is asked, and the
/// service looked at again after a tenth of a second.
pub proof fn law_a_wait_goes_on_while_pending(d: DriverTalk, waiting: Waiting, state: DriverState)
    requires
        0 <= d.used,
        d.used + 3 <= d.replies.len(),
        d.replies[d.used] == DriverReply::State(state),
        d.replies[d.used + 1] is Flag,
        d.replies[d.used + 2] == DriverReply::Done,
    ensures
        ({
            let (end, result) = change_run(d, waiting);
            let looked = d.asked.push(DriverRequest::QueryState);
            let reached = match waiting {
                Waiting::ForRunning => state is Running,
                Waiting::ForStopped => state is Stopped,
            };
            let pending = match waiting {
                Waiting::ForRunning => state is StartPending,
                Waiting::ForStopped => state is StopPending,
            };
            if reached {
                result is Ok && end.asked == looked
            } else if !pending {
                &&& end.asked == looked
                &&& result == Err::<(), Stop<EcError>>(
                    Stop::Failed(
                        match waiting {
                            Waiting::ForRunning => EcError::ServiceLeftStarting(state),
                            Waiting::ForStopped => EcError::ServiceLeftStopping(state),
                        },
                    ),
                )
            } else if d.replies[d.used + 1]->Flag_0 {
                &&& end.asked == looked.push(DriverRequest::TimerExpired)
                &&& result == Err::<(), Stop<EcError>>(
                    Stop::Failed(
                        match waiting {
                            Waiting::ForRunning => EcError::ServiceStartTimeout,
                            Waiting::ForStopped => EcError::ServiceStopTimeout,
                        },
                    ),
                )
            } else {
                change_run(d, waiting) == change_run(
                    DriverTalk {
                        asked: looked.push(DriverRequest::TimerExpired).push(
                            DriverRequest::Sleep(100),
                        ),
                        replies: d.replies,
                        used: d.used + 3,
                    },
                    waiting,
                )
            }
        }),
{
}

/// A wait sets its deadline first, ten seconds away.
pub proof fn law_a_wait_has_a_deadline(d: DriverTalk, waiting: Waiting)
    requires
        0 <= d.used < d.replies.len(),
        d.replies[d.used] == DriverReply::Done,
    ensures
        wait_run(d, waiting) == change_run(
            DriverTalk {
                asked: d.asked.push(DriverRequest::StartTimer(10_000)),
                replies: d.replies,
                used: d.used + 1,
            },
            waiting,
        ),
{
}

/// Starting the service counts as done also where it runs already; any other failure is reported.
pub proof fn law_a_running_service_may_be_started(d: DriverTalk)
    requires
        0 <= d.used < d.replies.len(),
    ensures
        start_run(d).0.asked == d.asked.push(DriverRequest::StartService),
        d.replies[d.used] == DriverReply::Done ==> start_run(d).1 is Ok,
        d.replies[d.used] matches DriverReply::Fault { code, fault } ==> start_run(d).1
            == if code == Some(1056i32) {
            Ok::<(), Stop<EcError>>(())
        } else {
            Err(Stop::Failed(EcError::Fault(fault)))
        },
{
}

/// What is done with a service that exists, by the state that it is in: a running one is left alone, a
/// starting one is waited for, a stopped one is started first, a stopping one is started once it has
/// stopped, and any other state is an error that names it.
pub proof fn law_each_state_is_brought_up(d: DriverTalk, state: DriverState)
    ensures
        state is Running ==> bring_up_run(d, state) == (d, Ok::<(), Stop<EcError>>(())),
        state is StartPending ==> bring_up_run(d, state) == wait_run(d, Waiting::ForRunning),
        state is Stopped ==> ({
            let (started, outcome) = start_run(d);
            if outcome is Ok {
                bring_up_run(d, state) == wait_run(started, Waiting::ForRunning)
            } else {
                bring_up_run(d, state) == (started, outcome)
            }
        }),
        state is StopPending ==> ({
            let (stopped, outcome) = wait_run(d, Waiting::ForStopped);
            if outcome is Ok {
                bring_up_run(d, state) == bring_up_run(stopped, DriverState::Stopped)
            } else {
                bring_up_run(d, state) == (stopped, outcome)
            }
        }),
        state is ContinuePending || state is PausePending || state is Paused ==> bring_up_run(
            d,
            state,
        ) == (d, Err::<(), Stop<EcError>>(Stop::Failed(EcError::ServiceState(state)))),
{
}

/// Making the service ready: it is opened through the service manager. One that does not exist need
/// not run; one that does is brought up from the state that it tells.
pub proof fn law_a_missing_service_need_not_run(d: DriverTalk)
    requires
        0 <= d.used,
        d.used + 3 <= d.replies.len(),
        d.replies[d.used] == DriverReply::Done,
    ensures
        ({
            let opened = d.asked.push(DriverRequest::OpenManager).push(DriverRequest::OpenService);
            let (end, result) = ready_run(d);
            &&& d.replies[d.used + 1] matches DriverReply::Fault { code, fault } ==> end.asked
                == opened && result == if code == Some(1060i32) {
                Ok::<(), Stop<EcError>>(())
            } else {
                Err(Stop::Failed(EcError::Fault(fault)))
            }
            &&& d.replies[d.used + 1] == DriverReply::Done ==> match d.replies[d.used + 2] {
                DriverReply::State(state) => ready_run(d) == bring_up_run(
                    DriverTalk {
                        asked: opened.push(DriverRequest::QueryState),
                        replies: d.replies,
                        used: d.used + 3,
                    },
                    state,
                ),
                _ => result is Err,
            }
        }),
{
}

/// The library is loaded and its three functions are looked up before it is asked whether the driver
/// is open; only if it says so there is access to the ports.
pub proof fn law_the_library_has_the_last_word(d: DriverTalk)
    requires
        0 <= d.used,
        d.used + 5 <= d.replies.len(),
        forall|k: int| d.used <= k < d.used + 4 ==> d.replies[k] == DriverReply::Done,
        d.replies[d.used + 4] is Flag,
    ensures
        library_run(d).0.asked == d.asked + seq![
            DriverRequest::LoadLibrary,
            DriverRequest::FindExport(DriverExport::IsInpOutDriverOpen),
            DriverRequest::FindExport(DriverExport::Out32),
            DriverRequest::FindExport(DriverExport::Inp32),
            DriverRequest::IsDriverOpen,
        ],
        library_run(d).1 == if d.replies[d.used + 4]->Flag_0 {
            Ok::<(), Stop<EcError>>(())
        } else {
            Err(Stop::Failed(EcError::DriverClosed))
        },
{
}

/// A library that is missing is reported as such, and a function that is missing by its name; nothing
/// is asked after that.
pub proof fn law_missing_functions_are_named(d: DriverTalk, good: int)
    requires
        0 <= good < 4,
        0 <= d.used,
        d.used + good < d.replies.len(),
        forall|k: int| d.used <= k < d.used + good ==> d.replies[k] == DriverReply::Done,
        d.replies[d.used + good] is Fault,
    ensures
        library_run(d).0.asked.len() == d.asked.len() + good + 1,
        library_run(d).1 == Err::<(), Stop<EcError>>(
            Stop::Failed(
                if good == 0 {
                    EcError::LibraryMissing
                } else if good == 1 {
                    EcError::ExportMissing(DriverExport::IsInpOutDriverOpen)
                } else if good == 2 {
                    EcError::ExportMissing(DriverExport::Out32)
                } else {
                    EcError::ExportMissing(DriverExport::Inp32)
                },
            ),
        ),
{
}

/// The library is loaded only once the service is ready.
pub proof fn law_the_service_comes_before_the_library(d: DriverTalk)
    ensures
        ready_run(d).1 is Err ==> access_run(d) == ready_run(d),
        ready_run(d).1 is Ok ==> access_run(d) == library_run(ready_run(d).0),
{
}

/// What is asked of the system is done, told or answered exactly if the answer says so. A fault is
/// reported with its number, or as what the caller makes of it; an answer of another kind is an error.
pub proof fn law_driver_answers(
    d: DriverTalk,
    request: DriverRequest,
    forgiven: i32,
    failure: Option<EcError>,
)
    requires
        0 <= d.used < d.replies.len(),
    ensures
        done_run(d, request, failure).0.asked == d.asked.push(request),
        attempt_run(d, request, forgiven).0.asked == d.asked.push(request),
        flag_run(d, request).0.asked == d.asked.push(request),
        state_run(d).0.asked == d.asked.push(DriverRequest::QueryState),
        match d.replies[d.used] {
            DriverReply::Done => {
                &&& done_run(d, request, failure).1 is Ok
                &&& attempt_run(d, request, forgiven).1 == Ok::<bool, Stop<EcError>>(true)
                &&& flag_run(d, request).1 is Err && state_run(d).1 is Err
            },
            DriverReply::State(state) => {
                &&& state_run(d).1 == Ok::<DriverState, Stop<EcError>>(state)
                &&& done_run(d, request, failure).1 is Err && flag_run(d, request).1 is Err
                &&& attempt_run(d, request, forgiven).1 is Err
            },
            DriverReply::Flag(yes) => {
                &&& flag_run(d, request).1 == Ok::<bool, Stop<EcError>>(yes)
                &&& done_run(d, request, failure).1 is Err && state_run(d).1 is Err
                &&& attempt_run(d, request, forgiven).1 is Err
            },
            DriverReply::Fault { code, fault } => {
                let told = Stop::Failed(EcError::Fault(fault));
                &&& flag_run(d, request).1 == Err::<bool, Stop<EcError>>(told)
                &&& state_run(d).1 == Err::<DriverState, Stop<EcError>>(told)
                &&& code == Some(forgiven) ==> attempt_run(d, request, forgiven).1 == Ok::<
                    bool,
                    Stop<EcError>,
                >(false)
                &&& code != Some(forgiven) ==> attempt_run(d, request, forgiven).1 == Err::<
                    bool,
                    Stop<EcError>,
                >(told)
                &&& failure is None ==> done_run(d, request, failure).1 == Err::<
                    (),
                    Stop<EcError>,
                >(told)
                &&& failure matches Some(error) ==> done_run(d, request, failure).1 == Err::<
                    (),
                    Stop<EcError>,
                >(Stop::Failed(error))
            },
        },
{
}

/// An answer of another kind than was asked for is reported as one that does not answer.
pub proof fn law_other_driver_answers_are_errors(
    d: DriverTalk,
    request: DriverRequest,
    forgiven: i32,
    failure: Option<EcError>,
)
    requires
        0 <= d.used < d.replies.len(),
        !(d.replies[d.used] is Fault),
    ensures
        !(d.replies[d.used] is Done) ==> done_run(d, request, failure).1 == Err::<
            (),
            Stop<EcError>,
        >(Stop::Failed(EcError::UnexpectedReply)) && attempt_run(d, request, forgiven).1 == Err::<
            bool,
            Stop<EcError>,
        >(Stop::Failed(EcError::UnexpectedReply)),
        !(d.replies[d.used] is Flag) ==> flag_run(d, request).1 == Err::<bool, Stop<EcError>>(
            Stop::Failed(EcError::UnexpectedReply),
        ),
        !(d.replies[d.used] is State) ==> state_run(d).1 == Err::<DriverState, Stop<EcError>>(
            Stop::Failed(EcError::UnexpectedReply),
        ),
{
}

} // verus!
