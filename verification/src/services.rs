//! The system's events, as the daemon sees them, and the life of the daemon as a service.
use vstd::prelude::*;

verus! {

/// What happens to the machine.
#[derive(Clone, Copy, PartialEq, Eq, Debug, Structural)]
pub enum InternalEvent {
    /// The service has been set up.
    Inited,
    SystemShuttingDown,
    SystemHibernating,
    SystemSleeping,
    SystemWakingUp,
    ChargerConnected,
    ChargerDisconnected,
}

// ---- logind ----

/// The event of the login manager's sleep signal.
pub open spec fn sleep_event(start: bool) -> InternalEvent {
    if start {
        InternalEvent::SystemSleeping
    } else {
        InternalEvent::SystemWakingUp
    }
}

/// The event of the login manager's shutdown signal.
pub open spec fn shutdown_event(start: bool) -> Option<InternalEvent> {
    if start {
        Some(InternalEvent::SystemShuttingDown)
    } else {
        None
    }
}

/// The event of the login manager's sleep signal: `start` before sleep, not `start` after it.
pub fn sleep_signal(start: bool) -> (event: InternalEvent)
    ensures
        event == sleep_event(start),
{
    if start {
        InternalEvent::SystemSleeping
    } else {
        InternalEvent::SystemWakingUp
    }
}

/// The event of the login manager's shutdown signal; a cancelled shutdown is none.
pub fn shutdown_signal(start: bool) -> (event: Option<InternalEvent>)
    ensures
        event == shutdown_event(start),
{
    if start {
        Some(InternalEvent::SystemShuttingDown)
    } else {
        None
    }
}

// ---- The Windows service manager ----

/// A power event of the service manager.
#[derive(Clone, Copy, PartialEq, Eq, Debug, Structural)]
pub enum PowerEvent {
    Suspend,
    ResumeAutomatic,
    ResumeSuspend,
    Other,
}

/// A control that the service manager sends.
#[derive(Clone, Copy, PartialEq, Eq, Debug, Structural)]
pub enum ServiceControl {
    Stop,
    Shutdown,
    Interrogate,
    Power(PowerEvent),
    Other,
}

/// What a control leads to.
#[derive(Clone, Copy, PartialEq, Eq, Debug, Structural)]
pub struct ControlOutcome {
    /// The service ends.
    pub stop: bool,
    /// What the daemon is told, if anything.
    pub event: Option<InternalEvent>,
    /// Whether the control is one that the service knows.
    pub implemented: bool,
}

/// What a control leads to. A suspended machine counts as one that shuts down: fast boot is
/// reported as suspension.
pub open spec fn outcome_of(control: ServiceControl) -> ControlOutcome {
    match control {
        ServiceControl::Stop => ControlOutcome {
            stop: true,
            event: Some(InternalEvent::SystemShuttingDown),
            implemented: true,
        },
        ServiceControl::Shutdown => ControlOutcome {
            stop: false,
            event: Some(InternalEvent::SystemShuttingDown),
            implemented: true,
        },
        ServiceControl::Power(PowerEvent::Suspend) => ControlOutcome {
            stop: false,
            event: Some(InternalEvent::SystemShuttingDown),
            implemented: true,
        },
        ServiceControl::Power(PowerEvent::ResumeAutomatic) => ControlOutcome {
            stop: false,
            event: Some(InternalEvent::SystemWakingUp),
            implemented: true,
        },
        ServiceControl::Power(PowerEvent::ResumeSuspend) => ControlOutcome {
            stop: false,
            event: Some(InternalEvent::SystemWakingUp),
            implemented: true,
        },
        ServiceControl::Power(PowerEvent::Other) => ControlOutcome {
            stop: false,
            event: None,
            implemented: true,
        },
        ServiceControl::Interrogate => ControlOutcome {
            stop: false,
            event: None,
            implemented: true,
        },
        ServiceControl::Other => ControlOutcome { stop: false, event: None, implemented: false },
    }
}

/// Handles a control of the service manager.
pub fn handle_control(control: ServiceControl) -> (outcome: ControlOutcome)
    ensures
        outcome == outcome_of(control),
{
    let (stop, event, implemented): (bool, Option<InternalEvent>, bool) = match control {
        ServiceControl::Stop => (true, Some(InternalEvent::SystemShuttingDown), true),
        ServiceControl::Shutdown => (false, Some(InternalEvent::SystemShuttingDown), true),
        ServiceControl::Interrogate => (false, None, true),
        ServiceControl::Power(power) => match power {
            PowerEvent::Suspend => (false, Some(InternalEvent::SystemShuttingDown), true),
            PowerEvent::ResumeAutomatic => (false, Some(InternalEvent::SystemWakingUp), true),
            PowerEvent::ResumeSuspend => (false, Some(InternalEvent::SystemWakingUp), true),
            PowerEvent::Other => (false, None, true),
        },
        ServiceControl::Other => (false, None, false),
    };
    ControlOutcome { stop, event, implemented }
}

/// The status that the service reports.
#[derive(Clone, Copy, PartialEq, Eq, Debug, Structural)]
pub struct ServiceReport {
    pub running: bool,
    pub accepts_stop: bool,
    pub accepts_power_event: bool,
    pub accepts_shutdown: bool,
    pub exit_code: u32,
}

/// The steps of the service, from its registration on.
#[derive(Clone, Copy, PartialEq, Eq, Debug, Structural)]
pub enum ServiceStep {
    Report(ServiceReport),
    AwaitStop,
    /// Leave time for cleaning up, in milliseconds.
    Sleep(u64),
    Finished,
}

/// The time between the stop and its report, in milliseconds.
pub const CLEANUP_MS: u64 = 500;

/// The `step`-th step: the service reports that it runs, waits for the stop, leaves time for
/// cleaning up, and reports that it has stopped.
pub open spec fn service_step_of(step: u32) -> ServiceStep {
    if step == 0 {
        ServiceStep::Report(
            ServiceReport {
                running: true,
                accepts_stop: true,
                accepts_power_event: true,
                accepts_shutdown: true,
                exit_code: 0,
            },
        )
    } else if step == 1 {
        ServiceStep::AwaitStop
    } else if step == 2 {
        ServiceStep::Sleep(CLEANUP_MS)
    } else if step == 3 {
        ServiceStep::Report(
            ServiceReport {
                running: false,
                accepts_stop: false,
                accepts_power_event: false,
                accepts_shutdown: false,
                exit_code: 0,
            },
        )
    } else {
        ServiceStep::Finished
    }
}

/// The `step`-th step of the service.
pub fn service_step(step: u32) -> (next: ServiceStep)
    ensures
        next == service_step_of(step),
{
    match step {
        0 => ServiceStep::Report(
            ServiceReport {
                running: true,
                accepts_stop: true,
                accepts_power_event: true,
                accepts_shutdown: true,
                exit_code: 0,
            },
        ),
        1 => ServiceStep::AwaitStop,
        2 => ServiceStep::Sleep(CLEANUP_MS),
        3 => ServiceStep::Report(
            ServiceReport {
                running: false,
                accepts_stop: false,
                accepts_power_event: false,
                accepts_shutdown: false,
                exit_code: 0,
            },
        ),
        _ => ServiceStep::Finished,
    }
}

/// What a control tells the daemon: the end of the service, of the machine, and suspension are told as
/// a shutdown; either kind of resumption as waking up; nothing else is told. Only a stop ends the
/// service, and only a control of an unknown kind is not implemented.
pub proof fn law_controls_and_events(control: ServiceControl)
    ensures
        outcome_of(control).stop <==> control is Stop,
        outcome_of(control).implemented <==> !(control is Other),
        outcome_of(control).event == Some(InternalEvent::SystemShuttingDown) <==> control is Stop
            || control is Shutdown || control == ServiceControl::Power(PowerEvent::Suspend),
        outcome_of(control).event == Some(InternalEvent::SystemWakingUp) <==> control
            == ServiceControl::Power(PowerEvent::ResumeAutomatic) || control
            == ServiceControl::Power(PowerEvent::ResumeSuspend),
        outcome_of(control).event is None <==> control is Interrogate || control is Other || control
            == ServiceControl::Power(PowerEvent::Other),
{
}

/// The service reports twice: once that it runs and takes controls, before it waits for the stop, and
/// once that it has ended and takes none, half a second after it.
pub proof fn law_the_service_reports_twice(step: u32)
    ensures
        service_step_of(step) is AwaitStop <==> step == 1,
        service_step_of(step) is Sleep <==> step == 2,
        service_step_of(step) matches ServiceStep::Sleep(pause) ==> pause == 500,
        service_step_of(step) is Finished <==> step > 3,
        service_step_of(step) is Report <==> step == 0 || step == 3,
        service_step_of(step) matches ServiceStep::Report(report) ==> {
            &&& report.running <==> step == 0
            &&& report.accepts_stop <==> step == 0
            &&& report.accepts_power_event <==> step == 0
            &&& report.accepts_shutdown <==> step == 0
            &&& report.exit_code == 0
        },
{
}

/// The signals of the login manager: the machine sleeps before and wakes up after its sleep, and a
/// shutdown is told only when it begins.
pub proof fn law_login_manager_signals(start: bool)
    ensures
        start <==> sleep_event(start) is SystemSleeping,
        !start <==> sleep_event(start) is SystemWakingUp,
        start <==> shutdown_event(start) is Some,
        shutdown_event(start) matches Some(event) ==> event is SystemShuttingDown,
{
}

} // verus!
