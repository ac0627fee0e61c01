use lecoo_control::daemon::{
    by_id, chip_label, connection_action, process_service, resolve_profile, start, startup_report,
    unsupported_reports, ConnectionAction, ConnectionEvent, EventIo, EventReply, EventRequest,
    FoundChip, Launch, StartError, StartIo, StartReply, StartRequest,
};
use lecoo_control::ec::device::{BoardProfile, EcOffsets};
use lecoo_control::ec::error::EcError;
use lecoo_control::services::{
    handle_control, service_step, shutdown_signal, sleep_signal, ControlOutcome, InternalEvent,
    PowerEvent, ServiceControl, ServiceReport, ServiceStep,
};
use lecoo_control::session::{Session, Stop};
use lecoo_control::telemetry::TelemetryData;
use lecoo_control::types::{
    BreathConfig, Capabilities, ChargeCaps, ChargeIntent, CurrentSettings, IpcRequest, KbdCaps,
    KeyboardBacklightLevel, LedCaps, PowerLedMode, PowerProfile, UnsupportedInfo,
};

fn board(id: &str) -> BoardProfile {
    BoardProfile {
        id: id.to_owned(),
        sensors: Vec::new(),
        battery: None,
        hram_candidates: Vec::new(),
        offsets: EcOffsets {
            ram_thermal_policy_cpu: 0,
            ram_thermal_policy_gpu: 0,
            ram_bat_limit_min: 0,
            ram_bat_limit_max: 0,
            ram_bat_rsoc: 0,
            ram_power_profile: 0,
            n161a_native_charge_hold: false,
        },
    }
}

fn boards() -> Vec<BoardProfile> {
    vec![board("N155A"), board("N161A")]
}

fn args(list: &[&str]) -> Vec<String> {
    let mut all = vec!["lecoo-daemon".to_owned()];
    all.extend(list.iter().map(|text| text.to_string()));
    all
}

fn caps() -> Capabilities {
    Capabilities {
        board: "N155A".to_owned(),
        daemon_version: "1".to_owned(),
        fans: Vec::new(),
        sensors: Vec::new(),
        power_profiles: Vec::new(),
        kbd: KbdCaps { on_off: false, levels: false, custom: false },
        led: LedCaps { on_off: false, brightness: false, animation: false },
        battery_leds: false,
        charge: ChargeCaps {
            supported: false,
            custom_range: None,
            presets: Vec::new(),
            preserve_fixed: None,
            freeze_soc: None,
        },
    }
}

#[test]
fn profiles_are_found_by_their_names() {
    assert_eq!(by_id(&boards(), "N161A"), Some(1));
    assert_eq!(by_id(&boards(), "n161a"), None);
}

#[test]
fn a_forced_profile_overrides_the_detected_one() {
    let profiles = boards();
    assert_eq!(resolve_profile(&args(&[]), &profiles, Some(0)), Some((0, false)));
    assert_eq!(resolve_profile(&args(&[]), &profiles, None), None);
    assert_eq!(
        resolve_profile(&args(&["--profile", "N161A"]), &profiles, Some(0)),
        Some((1, true))
    );
    assert_eq!(resolve_profile(&args(&["--profile", "X"]), &profiles, Some(0)), None);
    assert_eq!(resolve_profile(&args(&["--profile"]), &profiles, Some(0)), None);
    assert_eq!(
        resolve_profile(&args(&["--profile", "N161A", "--profile", "N155A"]), &profiles, None),
        Some((1, true))
    );
}

#[test]
fn chips_are_named() {
    assert_eq!(chip_label(0x55, 0x70, 0x02), "IT5570-02");
    assert_eq!(chip_label(0x89, 0x87, 0xAB), "IT8987-AB");
}

#[test]
fn unsupported_boards_are_reported_twice() {
    let (info, report) = unsupported_reports(
        "X99".to_owned(),
        "host".to_owned(),
        Some((0x55, 0x70, 0x02)),
    );
    assert_eq!(
        info,
        UnsupportedInfo { board: "X99".to_owned(), chip: Some("IT5570-02".to_owned()) }
    );
    assert_eq!(
        report,
        TelemetryData::Unsupported { host: "host".to_owned(), chip: Some("IT5570-02".to_owned()) }
    );
    let (info, _) = unsupported_reports("X99".to_owned(), "host".to_owned(), None);
    assert_eq!(info.chip, None);
}

#[test]
fn the_start_is_reported_where_telemetry_is_on() {
    let mut settings = CurrentSettings { telemetry_enabled: true, ..CurrentSettings::default() };
    let report = |settings: &CurrentSettings, chip| {
        startup_report(
            settings,
            chip,
            "host".to_owned(),
            "N155A".to_owned(),
            true,
            0xC400,
            caps(),
            Some("restore".to_owned()),
        )
    };
    assert_eq!(
        report(&settings, Ok((0x55, 0x70, 0x02))),
        Ok(Some(TelemetryData::Startup {
            host: "host".to_owned(),
            profile: "N155A".to_owned(),
            forced_profile: true,
            firmware: "IT5570-02".to_owned(),
            hram_offset: 0xC400,
            caps: Box::new(caps()),
            restore_error: Some("restore".to_owned()),
        }))
    );
    assert_eq!(report(&settings, Err(EcError::Fault(1))), Err(EcError::Fault(1)));
    settings.telemetry_enabled = false;
    assert_eq!(report(&settings, Err(EcError::Fault(1))), Ok(None));
}

// ---- The start ----

fn launch(
    arguments: &[&str],
    windows: bool,
    mut answer: impl FnMut(StartRequest) -> StartReply,
) -> (Result<Launch, StartError>, Vec<StartRequest>) {
    let profiles = boards();
    let arguments = args(arguments);
    let mut io: StartIo = Session::new();
    loop {
        match start(&arguments, &profiles, windows, &mut io) {
            Ok(launch) => return (Ok(launch), io.asked().clone()),
            Err(Stop::Failed(error)) => return (Err(error), io.asked().clone()),
            Err(Stop::Suspended) => {
                let request = *io.pending().expect("a suspended run waits for something");
                io.answer(answer(request));
            }
        }
    }
}

const CHIP: FoundChip = FoundChip { id1: 0x55, id2: 0x70, ver: 2 };

fn willing(request: StartRequest) -> StartReply {
    match request {
        StartRequest::LoadSettings => StartReply::Settings(CurrentSettings {
            telemetry_enabled: true,
            telemetry_client_id: 7,
            ..CurrentSettings::default()
        }),
        StartRequest::DetectBoard => StartReply::Board(Some(0)),
        StartRequest::ProbeChip | StartRequest::ReadChip => StartReply::Chip(CHIP),
        _ => StartReply::Done,
    }
}

#[test]
fn a_known_board_is_started_and_served() {
    let (result, asked) = launch(&[], false, willing);
    let settings = CurrentSettings {
        telemetry_enabled: true,
        telemetry_client_id: 7,
        ..CurrentSettings::default()
    };
    assert_eq!(result, Ok(Launch::Serve));
    assert_eq!(
        asked,
        vec![
            StartRequest::StartService,
            StartRequest::LoadSettings,
            StartRequest::InitTelemetry { enabled: true, client_id: 7 },
            StartRequest::Bind,
            StartRequest::DetectBoard,
            StartRequest::OpenDevice { profile: 0, insecure: false },
            StartRequest::Restore(settings),
            StartRequest::ReadChip,
            StartRequest::ReportStart { profile: 0, forced: false, chip: CHIP, restored: true },
            StartRequest::Publish(settings),
            StartRequest::ListenToEvents,
        ]
    );
}

#[test]
fn a_failed_restore_does_not_stop_the_start() {
    let (result, asked) = launch(&["--profile", "N161A", "--insecure"], false, |request| {
        match request {
            StartRequest::Restore(_) => StartReply::Failed,
            other => willing(other),
        }
    });
    assert_eq!(result, Ok(Launch::Serve));
    assert!(asked.contains(&StartRequest::OpenDevice { profile: 1, insecure: true }));
    assert!(asked.contains(&StartRequest::ReportStart {
        profile: 1,
        forced: true,
        chip: CHIP,
        restored: false
    }));
}

#[test]
fn an_unknown_board_is_not_touched() {
    let (result, asked) = launch(&[], false, |request| match request {
        StartRequest::DetectBoard => StartReply::Board(None),
        other => willing(other),
    });
    assert_eq!(result, Ok(Launch::Serve));
    assert_eq!(
        asked[5..],
        [StartRequest::ProbeChip, StartRequest::ReportUnsupported(Some(CHIP))]
    );
}

#[test]
fn starts_that_fail() {
    let failing = |failed: StartRequest, arguments: &[&str]| {
        launch(arguments, false, |request| {
            if request == failed {
                StartReply::Failed
            } else {
                willing(request)
            }
        })
        .0
    };
    assert_eq!(
        failing(StartRequest::OpenDevice { profile: 0, insecure: false }, &[]),
        Err(StartError::Device)
    );
    assert_eq!(failing(StartRequest::Bind, &[]), Err(StartError::Bind));
    assert_eq!(failing(StartRequest::ReadChip, &[]), Err(StartError::Chip));
    assert_eq!(failing(StartRequest::DumpProfile, &["--dump-profile"]), Err(StartError::Dump));
    assert_eq!(failing(StartRequest::LoadSettings, &[]), Err(StartError::UnexpectedReply));
}

#[test]
fn dumping_the_profile_ends_the_daemon() {
    let (result, asked) = launch(&["--dump-profile"], false, willing);
    assert_eq!(result, Ok(Launch::Dumped));
    assert_eq!(asked.last(), Some(&StartRequest::DumpProfile));
}

#[test]
fn windows_waits_for_its_service() {
    let (_, asked) = launch(&["--service"], true, willing);
    assert_eq!(
        asked[..3],
        [StartRequest::StartService, StartRequest::AwaitService, StartRequest::Sleep(2000)]
    );
    let (_, asked) = launch(&[], true, willing);
    assert_eq!(asked[0], StartRequest::WarnManual);
    assert!(!asked.contains(&StartRequest::StartService));
}

// ---- Connections ----

#[test]
fn connections_are_served_until_they_break() {
    let request = IpcRequest::GetTemperatures;
    let cases = [
        (ConnectionEvent::HandshakeAccepted, ConnectionAction::Receive),
        (ConnectionEvent::HandshakeRejected, ConnectionAction::Close),
        (ConnectionEvent::Received(request), ConnectionAction::Answer(request)),
        (ConnectionEvent::Sent, ConnectionAction::Receive),
        (ConnectionEvent::SendFailed, ConnectionAction::Close),
        (ConnectionEvent::ReceiveReset, ConnectionAction::SaveAndClose),
        (ConnectionEvent::ReceiveFailed, ConnectionAction::Close),
    ];
    for (event, action) in cases {
        assert_eq!(connection_action(event), action);
    }
}

// ---- Events ----

fn react(
    event: InternalEvent,
    settings: &mut CurrentSettings,
    mut answer: impl FnMut(EventRequest) -> EventReply,
) -> Vec<EventRequest> {
    let mut io: EventIo = Session::new();
    loop {
        match process_service(event, &mut io, settings) {
            Ok(()) => return io.asked().clone(),
            Err(Stop::Failed(())) => panic!("events do not fail"),
            Err(Stop::Suspended) => {
                let request = *io.pending().expect("a suspended run waits for something");
                io.answer(answer(request));
            }
        }
    }
}

#[test]
fn the_state_is_kept_when_the_machine_goes_down() {
    for event in [InternalEvent::SystemShuttingDown, InternalEvent::SystemHibernating] {
        let mut settings = CurrentSettings::default();
        let asked = react(event, &mut settings, |request| match request {
            EventRequest::ReadKeyboard => EventReply::Keyboard(KeyboardBacklightLevel::High),
            EventRequest::ReadPowerProfile => EventReply::Failed,
            EventRequest::ReadCharge => EventReply::Charge(ChargeIntent::Freeze),
            _ => EventReply::Done,
        });
        let kept = CurrentSettings {
            keyboard_backlight: KeyboardBacklightLevel::High,
            charge: ChargeIntent::Freeze,
            ..CurrentSettings::default()
        };
        assert_eq!(settings, kept);
        assert_eq!(
            asked,
            vec![
                EventRequest::ApplyLed(PowerLedMode::Auto),
                EventRequest::TakeSettings,
                EventRequest::ReadKeyboard,
                EventRequest::ReadPowerProfile,
                EventRequest::ReadCharge,
                EventRequest::Save(kept),
                EventRequest::ReleaseSettings,
            ]
        );
    }
}

#[test]
fn sleeping_breathes() {
    let mut settings = CurrentSettings::default();
    let asked = react(InternalEvent::SystemSleeping, &mut settings, |_| EventReply::Failed);
    assert_eq!(
        asked,
        vec![
            EventRequest::ApplyLed(PowerLedMode::Animation(BreathConfig::Sleep)),
            EventRequest::TakeSettings,
        ]
    );
    assert_eq!(settings, CurrentSettings::default());
}

#[test]
fn waking_restores() {
    let mut settings =
        CurrentSettings { power_profile: PowerProfile::Silent, ..CurrentSettings::default() };
    let before = settings;
    let asked = react(InternalEvent::SystemWakingUp, &mut settings, |_| EventReply::Done);
    assert_eq!(
        asked,
        vec![
            EventRequest::TakeSettings,
            EventRequest::Restore(before),
            EventRequest::ReleaseSettings,
        ]
    );
}

#[test]
fn the_charger_lights_one_led() {
    for (current, charging) in [(79_u8, true), (80, false), (81, false)] {
        let mut settings = CurrentSettings::default();
        let asked = react(InternalEvent::ChargerConnected, &mut settings, |request| match request {
            EventRequest::ReadRsoc => EventReply::Percent(current),
            EventRequest::ChargeStop => EventReply::Percent(80),
            _ => EventReply::Done,
        });
        assert_eq!(
            asked,
            vec![
                EventRequest::TakeSettings,
                EventRequest::ReleaseSettings,
                EventRequest::Reconcile(ChargeIntent::Full),
                EventRequest::ReadRsoc,
                EventRequest::ChargeStop,
                EventRequest::BatteryLeds(charging, !charging),
            ]
        );
    }
    let mut settings = CurrentSettings::default();
    assert_eq!(
        react(InternalEvent::ChargerConnected, &mut settings, |_| EventReply::Failed),
        vec![EventRequest::TakeSettings, EventRequest::ReadRsoc]
    );
    assert_eq!(
        react(InternalEvent::ChargerDisconnected, &mut settings, |_| EventReply::Done),
        vec![EventRequest::BatteryLeds(false, false)]
    );
    assert!(react(InternalEvent::Inited, &mut settings, |_| EventReply::Done).is_empty());
}

// ---- Services ----

#[test]
fn login_manager_signals_become_events() {
    assert_eq!(sleep_signal(true), InternalEvent::SystemSleeping);
    assert_eq!(sleep_signal(false), InternalEvent::SystemWakingUp);
    assert_eq!(shutdown_signal(true), Some(InternalEvent::SystemShuttingDown));
    assert_eq!(shutdown_signal(false), None);
}

#[test]
fn service_controls_become_events() {
    let down = Some(InternalEvent::SystemShuttingDown);
    let up = Some(InternalEvent::SystemWakingUp);
    let cases = [
        (ServiceControl::Stop, true, down, true),
        (ServiceControl::Shutdown, false, down, true),
        (ServiceControl::Interrogate, false, None, true),
        (ServiceControl::Power(PowerEvent::Suspend), false, down, true),
        (ServiceControl::Power(PowerEvent::ResumeAutomatic), false, up, true),
        (ServiceControl::Power(PowerEvent::ResumeSuspend), false, up, true),
        (ServiceControl::Power(PowerEvent::Other), false, None, true),
        (ServiceControl::Other, false, None, false),
    ];
    for (control, stop, event, implemented) in cases {
        assert_eq!(handle_control(control), ControlOutcome { stop, event, implemented });
    }
}

#[test]
fn the_service_reports_its_life() {
    let running = ServiceReport {
        running: true,
        accepts_stop: true,
        accepts_power_event: true,
        accepts_shutdown: true,
        exit_code: 0,
    };
    let stopped = ServiceReport {
        running: false,
        accepts_stop: false,
        accepts_power_event: false,
        accepts_shutdown: false,
        exit_code: 0,
    };
    assert_eq!(service_step(0), ServiceStep::Report(running));
    assert_eq!(service_step(1), ServiceStep::AwaitStop);
    assert_eq!(service_step(2), ServiceStep::Sleep(500));
    assert_eq!(service_step(3), ServiceStep::Report(stopped));
    assert_eq!(service_step(4), ServiceStep::Finished);
}

#[test]
fn events_go_on_from_the_settings_left() {
    let answer = |request| match request {
        EventRequest::ReadKeyboard => EventReply::Keyboard(KeyboardBacklightLevel::Low),
        EventRequest::ReadPowerProfile => EventReply::Power(PowerProfile::Silent),
        EventRequest::ReadCharge => EventReply::Charge(ChargeIntent::Freeze),
        EventRequest::ReadRsoc | EventRequest::ChargeStop => EventReply::Percent(50),
        _ => EventReply::Done,
    };
    for event in [
        InternalEvent::SystemShuttingDown,
        InternalEvent::SystemHibernating,
        InternalEvent::SystemSleeping,
        InternalEvent::SystemWakingUp,
        InternalEvent::ChargerConnected,
        InternalEvent::ChargerDisconnected,
        InternalEvent::Inited,
    ] {
        let mut io: EventIo = Session::new();
        let mut left = CurrentSettings::default();
        let first = loop {
            // Once from the settings that the runs before have left, once from the first ones.
            let outcome = process_service(event, &mut io, &mut left);
            let asked = io.asked().clone();
            let mut fresh: EventIo = Session::new();
            for request in &asked[..asked.len() - usize::from(outcome.is_err())] {
                fresh.answer(answer(*request));
            }
            let mut first = CurrentSettings::default();
            assert_eq!(process_service(event, &mut fresh, &mut first), outcome);
            assert_eq!(fresh.asked(), &asked);
            assert_eq!(first, left);
            match outcome {
                Err(Stop::Suspended) => {
                    let request = *io.pending().expect("a suspended run waits for something");
                    io.answer(answer(request));
                }
                _ => break first,
            }
        };
        assert_eq!(react(event, &mut CurrentSettings::default(), answer), *io.asked());
        assert_eq!(left, first);
    }
}
