use lecoo_control::ec::driver::{
    ensure_ready, wait_until_running, wait_until_stopped, DriverIo, DriverReply, DriverRequest,
    RawPortIo,
};
use lecoo_control::ec::error::{DriverExport, DriverState, EcError};
use lecoo_control::session::{Session, Stop};

fn play<T>(
    replies: Vec<DriverReply>,
    mut operation: impl FnMut(&mut DriverIo) -> Result<T, Stop<EcError>>,
) -> (Result<T, EcError>, Vec<DriverRequest>) {
    let mut io: DriverIo = Session::new();
    let mut replies = replies.into_iter();
    loop {
        match operation(&mut io) {
            Ok(value) => return (Ok(value), io.asked().clone()),
            Err(Stop::Failed(error)) => return (Err(error), io.asked().clone()),
            Err(Stop::Suspended) => io.answer(replies.next().expect("enough replies")),
        }
    }
}

const DONE: DriverReply = DriverReply::Done;

fn state(state: DriverState) -> DriverReply {
    DriverReply::State(state)
}

fn fault(code: i32) -> DriverReply {
    DriverReply::Fault { code: Some(code), fault: 4 }
}

#[test]
fn a_running_service_is_ready() {
    let (result, asked) = play(vec![DONE, DONE, state(DriverState::Running)], |io| ensure_ready(io));
    assert_eq!(result, Ok(()));
    assert_eq!(
        asked,
        vec![DriverRequest::OpenManager, DriverRequest::OpenService, DriverRequest::QueryState]
    );
}

#[test]
fn a_missing_service_is_left_to_the_library() {
    let (result, asked) = play(vec![DONE, fault(1060)], |io| ensure_ready(io));
    assert_eq!(result, Ok(()));
    assert_eq!(asked.len(), 2);
    let (result, _) = play(vec![DONE, fault(5)], |io| ensure_ready(io));
    assert_eq!(result, Err(EcError::Fault(4)));
}

#[test]
fn a_stopped_service_is_started() {
    let (result, asked) = play(
        vec![
            DONE,
            DONE,
            state(DriverState::Stopped),
            DONE,
            DONE,
            state(DriverState::StartPending),
            DriverReply::Flag(false),
            DONE,
            state(DriverState::Running),
        ],
        |io| ensure_ready(io),
    );
    assert_eq!(result, Ok(()));
    assert_eq!(
        asked,
        vec![
            DriverRequest::OpenManager,
            DriverRequest::OpenService,
            DriverRequest::QueryState,
            DriverRequest::StartService,
            DriverRequest::StartTimer(10_000),
            DriverRequest::QueryState,
            DriverRequest::TimerExpired,
            DriverRequest::Sleep(100),
            DriverRequest::QueryState,
        ]
    );
}

#[test]
fn a_service_that_runs_already_need_not_be_started() {
    let (result, _) = play(
        vec![
            DONE,
            DONE,
            state(DriverState::Stopped),
            fault(1056),
            DONE,
            state(DriverState::Running),
        ],
        |io| ensure_ready(io),
    );
    assert_eq!(result, Ok(()));
    let (result, _) =
        play(vec![DONE, DONE, state(DriverState::Stopped), fault(5)], |io| ensure_ready(io));
    assert_eq!(result, Err(EcError::Fault(4)));
}

#[test]
fn a_stopping_service_is_waited_for_and_started() {
    let (result, asked) = play(
        vec![
            DONE,
            DONE,
            state(DriverState::StopPending),
            DONE,
            state(DriverState::Stopped),
            DONE,
            DONE,
            state(DriverState::Running),
        ],
        |io| ensure_ready(io),
    );
    assert_eq!(result, Ok(()));
    assert_eq!(asked[5], DriverRequest::StartService);
}

#[test]
fn a_paused_service_is_an_error() {
    let (result, _) = play(vec![DONE, DONE, state(DriverState::Paused)], |io| ensure_ready(io));
    assert_eq!(result, Err(EcError::ServiceState(DriverState::Paused)));
    assert_eq!(
        EcError::ServiceState(DriverState::Paused).message(""),
        Some("Unexpected inpoutx64 service state: Paused".to_owned())
    );
}

#[test]
fn waiting_ends_with_the_deadline_or_a_wrong_state() {
    let (result, _) = play(
        vec![DONE, state(DriverState::StartPending), DriverReply::Flag(true)],
        |io| wait_until_running(io),
    );
    assert_eq!(result, Err(EcError::ServiceStartTimeout));
    let (result, _) =
        play(vec![DONE, state(DriverState::Stopped)], |io| wait_until_running(io));
    assert_eq!(result, Err(EcError::ServiceLeftStarting(DriverState::Stopped)));
    let (result, _) = play(
        vec![DONE, state(DriverState::StopPending), DriverReply::Flag(true)],
        |io| wait_until_stopped(io),
    );
    assert_eq!(result, Err(EcError::ServiceStopTimeout));
    let (result, _) =
        play(vec![DONE, state(DriverState::Running)], |io| wait_until_stopped(io));
    assert_eq!(result, Err(EcError::ServiceLeftStopping(DriverState::Running)));
}

#[test]
fn the_library_is_loaded_once_the_service_runs() {
    let ready = [DONE, DONE, state(DriverState::Running)];
    let with = |more: &[DriverReply]| [&ready, more].concat();
    let (result, asked) =
        play(with(&[DONE, DONE, DONE, DONE, DriverReply::Flag(true)]), |io| RawPortIo::new(io));
    assert!(result.is_ok());
    assert_eq!(
        asked[3..],
        [
            DriverRequest::LoadLibrary,
            DriverRequest::FindExport(DriverExport::IsInpOutDriverOpen),
            DriverRequest::FindExport(DriverExport::Out32),
            DriverRequest::FindExport(DriverExport::Inp32),
            DriverRequest::IsDriverOpen,
        ]
    );
    let (result, _) = play(with(&[fault(126)]), |io| RawPortIo::new(io));
    assert_eq!(result.err(), Some(EcError::LibraryMissing));
    let (result, _) = play(with(&[DONE, DONE, fault(127)]), |io| RawPortIo::new(io));
    assert_eq!(result.err(), Some(EcError::ExportMissing(DriverExport::Out32)));
    let (result, _) =
        play(with(&[DONE, DONE, DONE, DONE, DriverReply::Flag(false)]), |io| RawPortIo::new(io));
    assert_eq!(result.err(), Some(EcError::DriverClosed));
    assert_eq!(
        EcError::ExportMissing(DriverExport::Out32).message(""),
        Some("Out32 export not found in DLL".to_owned())
    );
}
