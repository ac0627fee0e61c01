use std::collections::VecDeque;

use lecoo_control::gui::app::{
    ConnectionState, LecooApp, NoticeKind, Page, TrayStatus, WindowEffect,
};
use lecoo_control::gui::labels::{
    append_charge_option, charge_intent_label, fan_change_needs_confirmation, fan_mode_label,
    fan_name, keyboard_backlight_label, led_effects, led_mode_label, power_profile_label,
};
use lecoo_control::gui::replies::{
    action_outcome, complaint_text, format_ipc_error, format_request_error, ipc_success,
    outcome_shown, unexpected_response,
};
use lecoo_control::gui::snapshot::{Snapshot, SnapshotFetch};
use lecoo_control::gui::tray::TrayAction;
use lecoo_control::gui::views::{
    battery_choices, battery_lines, battery_used, card_column, connection_badge, dashboard,
    desktop_panel, dismiss_notice, fan_card, fan_card_used, keyboard_panel, keyboard_used,
    led_panel, led_used, minimize_changed, notice_color, open_page, pages, power_choices,
    power_profile_used, range_sliders, settings_panel, settings_used, startup_changed, thermal,
    SettingsAction, Thermal,
};
use lecoo_control::gui::worker::{
    action_event, after_action, fetch_step, worker_task, Progress, Wake, WorkerCommand, WorkerEvent,
    WorkerTask,
};
use lecoo_control::ipc::{RequestError, WireError};
use lecoo_control::types::{
    BreathConfig, Capabilities, ChargeCaps, ChargeIntent, ChargeRange, ChargeStatus,
    CurrentSettings, DaemonCommand, ErrorCode, FanCaps, FanIndex, FanMode, IpcError, IpcRequest,
    IpcResponse, KbdCaps, KeyboardBacklightLevel, LedCaps, PowerLedMode, PowerProfile, SensorRole,
    SystemInfo, UnsupportedInfo,
};

fn n155a_capabilities() -> Capabilities {
    Capabilities {
        board: "N155A".to_owned(),
        daemon_version: "test-daemon".to_owned(),
        fans: vec![
            FanCaps { index: FanIndex::Cpu, duty_max: 220 },
            FanCaps { index: FanIndex::Gpu, duty_max: 220 },
        ],
        sensors: vec![SensorRole::Cpu, SensorRole::Sys],
        power_profiles: vec![
            PowerProfile::Silent,
            PowerProfile::Default,
            PowerProfile::Performance,
        ],
        kbd: KbdCaps { on_off: true, levels: true, custom: true },
        led: LedCaps { on_off: true, brightness: true, animation: true },
        battery_leds: true,
        charge: ChargeCaps {
            supported: true,
            custom_range: Some((20, 100)),
            presets: vec![(
                "balanced".to_owned(),
                ChargeIntent::Preserve(Some(ChargeRange { min: 70, max: 80 })),
            )],
            preserve_fixed: None,
            freeze_soc: None,
        },
    }
}

fn charge_status() -> ChargeStatus {
    ChargeStatus {
        desired: ChargeIntent::Preserve(Some(ChargeRange { min: 70, max: 80 })),
        effective: ChargeIntent::Preserve(Some(ChargeRange { min: 70, max: 80 })),
        soc: 76,
        pending: None,
        thresholds: Some((70, 80)),
    }
}

fn system_info() -> SystemInfo {
    SystemInfo {
        chip: "ITE".to_owned(),
        revision: "1.0".to_owned(),
        hram_offset: 0xC400,
        daemon_version: "test-daemon".to_owned(),
    }
}

#[test]
fn only_risky_fan_modes_need_confirmation() {
    assert!(!fan_change_needs_confirmation(FanMode::Auto));
    assert!(!fan_change_needs_confirmation(FanMode::Full));
    assert!(!fan_change_needs_confirmation(FanMode::Custom(1)));
    assert!(fan_change_needs_confirmation(FanMode::Custom(0)));
    assert!(fan_change_needs_confirmation(FanMode::Turbo));
}

#[test]
fn charge_labels_preserve_thresholds() {
    assert_eq!(charge_intent_label(ChargeIntent::Full), "完全充电");
    assert_eq!(
        charge_intent_label(ChargeIntent::Preserve(Some(ChargeRange { min: 60, max: 80 }))),
        "保护阈值 60%–80%"
    );
}

#[test]
fn custom_charge_option_is_not_duplicated() {
    let mut options = vec![("满电".to_owned(), ChargeIntent::Full)];
    append_charge_option(&mut options, "完全充电", ChargeIntent::Full);
    append_charge_option(&mut options, "冻结充电", ChargeIntent::Freeze);
    assert_eq!(options.len(), 2);
    assert_eq!(options[0].0, "满电");
    assert_eq!(options[1], ("冻结充电".to_owned(), ChargeIntent::Freeze));
}

#[test]
fn snapshot_reads_every_supported_n155a_value_over_ipc() {
    let capabilities = n155a_capabilities();
    let settings = CurrentSettings::default();
    let mut fetch = SnapshotFetch::start();
    let mut snapshot: Option<Snapshot> = None;
    for expected in [
        IpcRequest::DaemonCommand(DaemonCommand::GetCapabilities),
        IpcRequest::GetSystemState,
        IpcRequest::DaemonCommand(DaemonCommand::GetSettings),
        IpcRequest::GetTemperatures,
        IpcRequest::GetFansRPM,
        IpcRequest::GetChargeStatus,
        IpcRequest::GetPowerProfile,
        IpcRequest::GetKeyboardBacklight,
    ] {
        let request = fetch.next_request().expect("one more request");
        assert_eq!(request, expected);
        let response = match request {
            IpcRequest::DaemonCommand(DaemonCommand::GetCapabilities) => {
                IpcResponse::Capabilities(Box::new(capabilities.clone()))
            }
            IpcRequest::GetSystemState => IpcResponse::SystemInfo(system_info()),
            IpcRequest::DaemonCommand(DaemonCommand::GetSettings) => {
                IpcResponse::Settings(Box::new(settings.clone()))
            }
            IpcRequest::GetTemperatures => IpcResponse::Temps { cpu_c: 63, sys_c: 41 },
            IpcRequest::GetFansRPM => IpcResponse::FanRpm { cpu: 2345, gpu: 1987 },
            IpcRequest::GetChargeStatus => IpcResponse::ChargeStatus(charge_status()),
            IpcRequest::GetPowerProfile => IpcResponse::PowerLimit(PowerProfile::Performance),
            IpcRequest::GetKeyboardBacklight => {
                IpcResponse::KeyboardBacklight(KeyboardBacklightLevel::High)
            }
            other => panic!("unexpected request: {other:?}"),
        };
        match fetch_step(fetch, Ok(response), 99) {
            Progress::Ask(next) => fetch = next,
            Progress::Report(WorkerEvent::Snapshot(result)) => {
                snapshot = Some(result.expect("read N155A snapshot"));
                fetch = SnapshotFetch::start();
            }
            Progress::Report(other) => panic!("unexpected report: {other:?}"),
        }
    }
    let snapshot = snapshot.expect("the last answer ends the fetch");
    assert_eq!(snapshot.capabilities.as_ref(), Some(&n155a_capabilities()));
    assert_eq!(snapshot.temperatures.map(|value| value.cpu_c), Some(63));
    assert_eq!(snapshot.temperatures.map(|value| value.system_c), Some(41));
    assert_eq!(snapshot.fans.map(|value| value.cpu_rpm), Some(2345));
    assert_eq!(snapshot.fans.map(|value| value.gpu_rpm), Some(1987));
    assert_eq!(snapshot.charge.as_ref().map(|value| value.soc), Some(76));
    assert_eq!(snapshot.power_profile, Some(PowerProfile::Performance));
    assert_eq!(snapshot.keyboard_backlight, Some(KeyboardBacklightLevel::High));
    assert_eq!(snapshot.system, Some(system_info()));
    assert_eq!(snapshot.settings, Some(settings));
    assert_eq!(snapshot.updated_at, Some(99));
}

#[test]
fn a_bare_machine_is_asked_three_things() {
    let mut bare = n155a_capabilities();
    bare.fans.clear();
    bare.sensors.clear();
    bare.power_profiles.clear();
    bare.kbd = KbdCaps { on_off: false, levels: false, custom: false };
    bare.charge.supported = false;
    let fetch = SnapshotFetch::start();
    let fetch = fetch.accept(IpcResponse::Capabilities(Box::new(bare))).ok().unwrap();
    assert_eq!(fetch.next_request(), Some(IpcRequest::GetSystemState));
    let fetch = fetch.accept(IpcResponse::SystemInfo(system_info())).ok().unwrap();
    let fetch = fetch
        .accept(IpcResponse::Settings(Box::new(CurrentSettings::default())))
        .ok()
        .unwrap();
    assert_eq!(fetch.next_request(), None);
    let snapshot = fetch.finish(5);
    assert_eq!(snapshot.temperatures, None);
    assert_eq!(snapshot.charge, None);
    assert_eq!(snapshot.updated_at, Some(5));
}

#[test]
fn a_fetch_ends_with_the_first_wrong_answer() {
    let fetch = SnapshotFetch::start();
    assert_eq!(
        fetch.accept(IpcResponse::Success).err(),
        Some("读取硬件能力时收到意外响应：Success".to_owned())
    );
    let error = IpcError {
        code: ErrorCode::Internal,
        message: "boom".to_owned(),
        unsupported: None,
    };
    let fetch = SnapshotFetch::start();
    match fetch_step(fetch, Ok(IpcResponse::Error(error)), 0) {
        Progress::Report(event) => assert_eq!(
            event,
            WorkerEvent::Snapshot(Err("后台服务返回内部错误：boom".to_owned()))
        ),
        Progress::Ask(_) => panic!("the fetch goes on"),
    }
    let lost = RequestError::Exchange(WireError::Fault("gone".to_owned()));
    match fetch_step(SnapshotFetch::start(), Err(lost), 0) {
        Progress::Report(event) => assert_eq!(
            event,
            WorkerEvent::Snapshot(Err("与 Lecoo 后台服务通信失败：gone".to_owned()))
        ),
        Progress::Ask(_) => panic!("the fetch goes on"),
    }
}

// ---- Labels and replies ----

#[test]
fn labels_name_every_value() {
    assert_eq!(fan_name(FanIndex::Cpu), "CPU");
    assert_eq!(fan_name(FanIndex::Gpu), "GPU / 辅助");
    assert_eq!(fan_mode_label(FanMode::Auto), "自动");
    assert_eq!(fan_mode_label(FanMode::Full), "全速");
    assert_eq!(fan_mode_label(FanMode::Turbo), "Turbo（高风险）");
    assert_eq!(fan_mode_label(FanMode::Custom(7)), "自定义（7/255）");
    assert_eq!(power_profile_label(PowerProfile::Silent), "安静");
    assert_eq!(power_profile_label(PowerProfile::Default), "默认");
    assert_eq!(power_profile_label(PowerProfile::Performance), "性能");
    assert_eq!(keyboard_backlight_label(KeyboardBacklightLevel::Off), "关闭");
    assert_eq!(keyboard_backlight_label(KeyboardBacklightLevel::Custom(255)), "自定义（255/255）");
    assert_eq!(led_mode_label(PowerLedMode::Custom(128)), "静态亮度（128/255）");
    assert_eq!(led_mode_label(PowerLedMode::Animation(BreathConfig::Zen)), "硬件灯效");
    assert_eq!(charge_intent_label(ChargeIntent::Preserve(None)), "固件电池保护");
    assert_eq!(charge_intent_label(ChargeIntent::Freeze), "冻结充电");
    let effects = led_effects();
    assert_eq!(effects[0], ("柔和", BreathConfig::Smooth));
    assert_eq!(effects[9], ("声呐", BreathConfig::Sonar));
}

#[test]
fn errors_are_put_into_words() {
    let error = |code, message: &str| IpcError {
        code,
        message: message.to_owned(),
        unsupported: None,
    };
    assert_eq!(
        format_ipc_error(&error(ErrorCode::UnsupportedRequest, " \t\u{3000}")),
        "当前后台服务不支持该操作，请更新组件"
    );
    assert_eq!(format_ipc_error(&error(ErrorCode::UnsupportedHardware, "")), "本机硬件不支持该操作");
    assert_eq!(
        format_ipc_error(&error(ErrorCode::Precondition, " x")),
        "操作已保存，但当前条件不满足： x"
    );
    let unsupported = |chip: Option<&str>| IpcError {
        code: ErrorCode::Internal,
        message: String::new(),
        unsupported: Some(UnsupportedInfo {
            board: "X99".to_owned(),
            chip: chip.map(|text| text.to_owned()),
        }),
    };
    assert_eq!(format_ipc_error(&unsupported(None)), "此硬件暂不受支持：X99");
    assert_eq!(
        format_ipc_error(&unsupported(Some("IT5570-02"))),
        "此硬件暂不受支持：X99（IT5570-02）"
    );
    assert_eq!(
        format_request_error(&RequestError::Connect(WireError::Fault("refused".to_owned()))),
        "无法连接 Lecoo 后台服务：refused"
    );
}

#[test]
fn unexpected_answers_are_shown() {
    assert_eq!(
        unexpected_response("系统信息", &IpcResponse::Temps { cpu_c: 1, sys_c: 2 }),
        "读取系统信息时收到意外响应：Temps { cpu_c: 1, sys_c: 2 }"
    );
    assert_eq!(
        unexpected_response("温度数据", &IpcResponse::Message("a\n".to_owned())),
        "读取温度数据时收到意外响应：Message(\"a\\n\")"
    );
    assert_eq!(complaint_text("风扇转速", "?"), "读取风扇转速时收到意外响应：?");
}

#[test]
fn outcomes_are_put_into_words() {
    let done = action_outcome(IpcResponse::Success).unwrap();
    assert_eq!((done.message.as_str(), done.telemetry_id), ("已应用。", None));
    let off = action_outcome(IpcResponse::TelemetryDisabledInfo).unwrap();
    assert_eq!(off.message, "匿名遥测已关闭。");
    let id = action_outcome(IpcResponse::TelemetryId(0xAB)).unwrap();
    assert_eq!(
        (id.message.as_str(), id.telemetry_id),
        ("遥测 ID：00000000000000AB", Some(0xAB))
    );
    let other = action_outcome(IpcResponse::ChargeLimit(60, 80)).unwrap();
    assert_eq!(other.message, "已完成：ChargeLimit(60, 80)");
    let error = IpcError {
        code: ErrorCode::Internal,
        message: String::new(),
        unsupported: None,
    };
    assert_eq!(
        action_outcome(IpcResponse::Error(error.clone())),
        Err("后台服务返回内部错误".to_owned())
    );
    assert_eq!(
        ipc_success(IpcResponse::Error(error)),
        Err("后台服务返回内部错误".to_owned())
    );
    assert_eq!(ipc_success(IpcResponse::Success), Ok(IpcResponse::Success));
    assert_eq!(
        outcome_shown(&IpcResponse::ChargeLimit(60, 80), "shown").unwrap().message,
        "已完成：shown"
    );
}

// ---- The worker ----

#[test]
fn the_worker_does_what_it_is_told() {
    assert_eq!(worker_task(Wake::Timeout), WorkerTask::Fetch);
    assert_eq!(worker_task(Wake::Disconnected), WorkerTask::Quit);
    assert_eq!(worker_task(Wake::Command(WorkerCommand::Refresh)), WorkerTask::Fetch);
    assert_eq!(worker_task(Wake::Command(WorkerCommand::Quit)), WorkerTask::Quit);
    assert_eq!(
        worker_task(Wake::Command(WorkerCommand::Request {
            label: "x".to_owned(),
            request: IpcRequest::GetFansRPM,
            refresh_after: true,
        })),
        WorkerTask::Act {
            label: "x".to_owned(),
            request: IpcRequest::GetFansRPM,
            refresh_after: true,
        }
    );
    assert_eq!(after_action(true), WorkerTask::Fetch);
    assert_eq!(after_action(false), WorkerTask::Wait);
    match action_event("x".to_owned(), Ok(IpcResponse::Success)) {
        WorkerEvent::Action { label, result } => {
            assert_eq!(label, "x");
            assert_eq!(result.unwrap().message, "已应用。");
        }
        other => panic!("unexpected event: {other:?}"),
    }
    let lost = RequestError::Connect(WireError::UnexpectedReply);
    match action_event("x".to_owned(), Err(lost)) {
        WorkerEvent::Action { result, .. } => assert_eq!(
            result,
            Err("无法连接 Lecoo 后台服务：unexpected reply".to_owned())
        ),
        other => panic!("unexpected event: {other:?}"),
    }
}

// ---- The window ----

/// A window whose first reading is over.
fn window() -> LecooApp {
    let (mut app, _) = LecooApp::new(false, false, false, None);
    app.refresh_in_flight = false;
    app
}

fn known() -> LecooApp {
    let mut app = window();
    app.absorb_snapshot(Snapshot {
        capabilities: Some(n155a_capabilities()),
        system: Some(system_info()),
        settings: Some(CurrentSettings::default()),
        temperatures: None,
        fans: None,
        charge: Some(charge_status()),
        power_profile: None,
        keyboard_backlight: None,
        updated_at: Some(1_000),
    });
    app
}

fn notice(app: &LecooApp) -> (NoticeKind, &str) {
    let shown = app.notice.as_ref().expect("a notice");
    (shown.kind, shown.text.as_str())
}

#[test]
fn a_new_window_refreshes() {
    let (mut app, first) = LecooApp::new(true, true, true, Some(7));
    assert_eq!(first, WorkerCommand::Refresh);
    assert!(app.is_busy() && app.refresh_in_flight);
    app.refresh_sent(true);
    assert_eq!(app.refresh_now(), None);
    assert_eq!(app.connection, ConnectionState::Connecting);
    assert_eq!((app.cpu_pwm, app.charge_min, app.charge_max), (128, 60, 80));
    assert!(app.launched_minimized && app.startup_enabled && app.minimize_to_tray);
    app.take_event(WorkerEvent::Snapshot(Ok(Snapshot::default())));
    assert!(!app.is_busy());
    assert_eq!(app.connection, ConnectionState::Online);
    assert_eq!(app.refresh_now(), Some(WorkerCommand::Refresh));
    assert!(app.is_busy());
    assert_eq!(app.refresh_now(), None);
    app.refresh_sent(true);
    assert!(app.is_busy());
    app.refresh_sent(false);
    assert!(!app.is_busy());
    assert_eq!(app.connection, ConnectionState::Offline("IPC 工作线程已停止".to_owned()));
    assert_eq!(notice(&app), (NoticeKind::Error, "无法启动后台通信。"));
}

#[test]
fn actions_are_submitted_one_at_a_time() {
    let mut app = window();
    let command = app.submit("读取".to_owned(), IpcRequest::GetFansRPM, false);
    assert_eq!(
        command,
        Some(WorkerCommand::Request {
            label: "读取".to_owned(),
            request: IpcRequest::GetFansRPM,
            refresh_after: false,
        })
    );
    app.submitted("读取", true);
    assert!(app.action_in_flight);
    assert_eq!(notice(&app), (NoticeKind::Info, "读取：正在处理…"));
    assert_eq!(app.submit("再".to_owned(), IpcRequest::GetFansRPM, false), None);
    let mut app = window();
    app.submitted("读取", false);
    assert!(!app.action_in_flight);
    assert_eq!(notice(&app), (NoticeKind::Error, "无法向后台服务发送操作。"));
}

#[test]
fn events_are_taken_in_order() {
    let mut app = window();
    app.action_in_flight = true;
    app.refresh_in_flight = true;
    app.page = Page::Lighting;
    let settings = CurrentSettings {
        fan_mode_cpu: FanMode::Custom(11),
        fan_mode_gpu: FanMode::Custom(22),
        keyboard_backlight: KeyboardBacklightLevel::Custom(33),
        led_mode: PowerLedMode::Custom(44),
        ..CurrentSettings::default()
    };
    let mut snapshot = Snapshot::default();
    snapshot.settings = Some(settings);
    snapshot.capabilities = Some(n155a_capabilities());
    let mut events: VecDeque<WorkerEvent> = VecDeque::new();
    events.push_back(action_event("动作".to_owned(), Ok(IpcResponse::TelemetryId(5))));
    events.push_back(WorkerEvent::Snapshot(Ok(snapshot)));
    app.pump_events(&mut events);
    assert!(events.is_empty());
    assert!(!app.is_busy());
    assert_eq!(app.telemetry_id, Some(5));
    assert_eq!(app.connection, ConnectionState::Online);
    assert_eq!((app.cpu_pwm, app.gpu_pwm), (11, 22));
    assert_eq!((app.keyboard_custom, app.led_brightness), (33, 44));
    assert_eq!((app.charge_min, app.charge_max), (20, 100));
    assert_eq!(notice(&app), (NoticeKind::Success, "动作：遥测 ID：0000000000000005"));
    assert_eq!(app.page, Page::Lighting);
    events.push_back(WorkerEvent::Snapshot(Err("断开".to_owned())));
    app.pump_events(&mut events);
    assert_eq!(app.connection, ConnectionState::Offline("断开".to_owned()));
    assert_eq!(notice(&app), (NoticeKind::Error, "断开"));
    events.push_back(WorkerEvent::Action {
        label: "动作".to_owned(),
        result: Err("失败".to_owned()),
    });
    app.pump_events(&mut events);
    assert_eq!(notice(&app), (NoticeKind::Error, "动作：失败"));
    assert_eq!(app.telemetry_id, Some(5));
}

#[test]
fn the_charge_range_is_taken_over_once() {
    let mut app = known();
    assert_eq!((app.charge_min, app.charge_max), (20, 100));
    app.charge_min = 50;
    let mut other = n155a_capabilities();
    other.charge.custom_range = Some((30, 90));
    let mut snapshot = Snapshot::default();
    snapshot.capabilities = Some(other);
    app.absorb_snapshot(snapshot);
    assert_eq!((app.charge_min, app.charge_max), (50, 100));
}

#[test]
fn what_was_read_comes_before_what_is_remembered() {
    let mut app = window();
    assert_eq!(app.current_power_profile(), PowerProfile::Default);
    assert_eq!(app.current_keyboard_backlight(), KeyboardBacklightLevel::Off);
    assert_eq!(app.fan_mode(FanIndex::Cpu), FanMode::Auto);
    assert_eq!(app.current_led_mode(), PowerLedMode::Auto);
    app.snapshot.settings = Some(CurrentSettings {
        power_profile: PowerProfile::Silent,
        keyboard_backlight: KeyboardBacklightLevel::Low,
        fan_mode_gpu: FanMode::Full,
        ..CurrentSettings::default()
    });
    assert_eq!(app.current_power_profile(), PowerProfile::Silent);
    assert_eq!(app.current_keyboard_backlight(), KeyboardBacklightLevel::Low);
    assert_eq!(app.fan_mode(FanIndex::Gpu), FanMode::Full);
    app.snapshot.power_profile = Some(PowerProfile::Performance);
    app.snapshot.keyboard_backlight = Some(KeyboardBacklightLevel::High);
    assert_eq!(app.current_power_profile(), PowerProfile::Performance);
    assert_eq!(app.current_keyboard_backlight(), KeyboardBacklightLevel::High);
}

#[test]
fn risky_fan_modes_wait_for_approval() {
    let mut app = window();
    assert_eq!(app.choose_fan_mode(FanIndex::Gpu, FanMode::Turbo), None);
    let asked = app.confirmation.as_ref().unwrap();
    assert_eq!(asked.title, "确认风扇设置");
    assert_eq!(asked.label, "设置 GPU / 辅助 风扇");
    assert_eq!(
        asked.message,
        "Turbo 模式会绕过常规安全保护。仅在您了解散热风险时继续。"
    );
    let request = IpcRequest::SetFanMode { fan: FanIndex::Gpu, mode: FanMode::Turbo };
    assert_eq!(
        app.decide(true),
        Some(WorkerCommand::Request {
            label: "设置 GPU / 辅助 风扇".to_owned(),
            request,
            refresh_after: true,
        })
    );
    assert!(app.confirmation.is_none());
    assert_eq!(app.choose_fan_mode(FanIndex::Cpu, FanMode::Custom(0)), None);
    assert_eq!(
        app.confirmation.as_ref().unwrap().message,
        "将风扇 PWM 设为 0 可能导致过热。仅在您确定设备处于安全状态时继续。"
    );
    assert_eq!(app.decide(false), None);
    assert!(app.confirmation.is_none());
    assert_eq!(notice(&app), (NoticeKind::Info, "已取消操作。"));
    assert!(app.choose_fan_mode(FanIndex::Cpu, FanMode::Full).is_some());
    assert!(app.confirmation.is_none());
}

// ---- The notification area ----

#[test]
fn a_minimized_start_goes_to_the_notification_area() {
    let (mut app, _) = LecooApp::new(true, false, true, Some(7));
    assert!(app.needs_tray());
    assert_eq!(app.ensure_tray(Ok(())), vec![WindowEffect::HideAfterStartup(Some(7))]);
    assert!(app.tray_is_ready() && !app.launched_minimized);
    assert_eq!(app.ensure_tray(Err("x".to_owned())), vec![]);
    assert!(app.tray_is_ready());
    let (mut app, _) = LecooApp::new(true, false, true, None);
    assert_eq!(
        app.ensure_tray(Err("无权限".to_owned())),
        vec![WindowEffect::Visible(true), WindowEffect::Focus]
    );
    assert_eq!(app.tray, TrayStatus::Unavailable("无权限".to_owned()));
    assert_eq!(notice(&app), (NoticeKind::Error, "Windows 通知区域不可用：无权限"));
}

#[test]
fn tray_actions_move_the_window() {
    let (mut app, _) = LecooApp::new(true, false, true, Some(7));
    let all = vec![TrayAction::Show, TrayAction::Hide, TrayAction::Exit];
    assert_eq!(app.process_tray_actions(&all), vec![]);
    app.tray = TrayStatus::Ready;
    assert_eq!(
        app.process_tray_actions(&all),
        vec![
            WindowEffect::Native(7, true),
            WindowEffect::Visible(true),
            WindowEffect::Focus,
            WindowEffect::Native(7, false),
            WindowEffect::Visible(false),
            WindowEffect::Close,
        ]
    );
    assert!(app.allow_exit && !app.launched_minimized);
}

#[test]
fn closing_keeps_the_window_only_where_wanted() {
    let (mut app, _) = LecooApp::new(false, false, true, None);
    assert_eq!(app.keep_window_in_tray_when_requested(true), vec![]);
    app.tray = TrayStatus::Ready;
    assert_eq!(app.keep_window_in_tray_when_requested(false), vec![]);
    assert_eq!(
        app.keep_window_in_tray_when_requested(true),
        vec![WindowEffect::CancelClose, WindowEffect::Visible(false)]
    );
    app.allow_exit = true;
    assert_eq!(app.keep_window_in_tray_when_requested(true), vec![]);
}

// ---- Pages ----

#[test]
fn pages_and_badges() {
    let titles: Vec<&str> = pages().iter().map(|page| page.1).collect();
    assert_eq!(titles, vec!["概览", "散热", "性能与电池", "灯光", "设置"]);
    let mut app = window();
    open_page(&mut app, Page::Settings);
    assert_eq!(app.page, Page::Settings);
    assert_eq!(connection_badge(&app), ("正在连接".to_owned(), (220, 170, 40)));
    app.connection = ConnectionState::Online;
    assert_eq!(connection_badge(&app), ("后台服务已连接".to_owned(), (70, 180, 110)));
    app.connection = ConnectionState::Offline(String::new());
    assert_eq!(connection_badge(&app), ("后台服务未连接".to_owned(), (210, 80, 80)));
    assert_eq!(notice_color(NoticeKind::Info), (80, 145, 210));
    assert_eq!(notice_color(NoticeKind::Success), (70, 175, 105));
    assert_eq!(notice_color(NoticeKind::Error), (215, 80, 80));
    app.set_notice(NoticeKind::Info, "x".to_owned());
    dismiss_notice(&mut app);
    assert!(app.notice.is_none());
}

#[test]
fn the_dashboard_shows_what_is_known() {
    let empty = dashboard(&window(), 0);
    assert_eq!(empty.synced, "最近同步：等待后台服务");
    assert_eq!(empty.cpu_temperature, "—");
    assert_eq!(empty.board, "等待连接");
    assert_eq!(empty.daemon_version, "—");
    assert_eq!(empty.power_profile, "默认");
    assert_eq!(empty.charge, None);
    let mut app = known();
    app.connection = ConnectionState::Offline("断开".to_owned());
    let page = dashboard(&app, 4_999);
    assert_eq!(page.synced, "最近同步：3 秒前");
    assert_eq!(page.offline.as_deref(), Some("断开"));
    assert_eq!(page.battery, "76%");
    assert_eq!(page.board, "N155A");
    assert_eq!(page.chip, "ITE");
    assert_eq!(
        page.charge.as_deref(),
        Some("目标：保护阈值 70%–80% · 生效：保护阈值 70%–80% · 阈值 70%–80%")
    );
    assert_eq!(page.charge_pending, None);
    assert_eq!(dashboard(&app, 0).synced, "最近同步：0 秒前");
}

#[test]
fn fan_cards_stay_within_the_duty() {
    let mut app = known();
    assert_eq!(thermal(&window()), Thermal::Waiting);
    assert_eq!(thermal(&app), Thermal::Columns(2));
    assert_eq!(card_column(3, 2), 1);
    let fan = FanCaps { index: FanIndex::Cpu, duty_max: 100 };
    let card = fan_card(&app, fan);
    assert_eq!(card.heading, "CPU 风扇");
    assert_eq!(card.rpm, "—");
    assert_eq!(card.current, "当前：自动");
    assert_eq!(card.pwm, 100);
    assert_eq!(card.slider, "自定义 PWM（最大 100）");
    assert!(card.enabled);
    assert_eq!(fan_card_used(&mut app, fan, 90, None), None);
    assert_eq!(app.cpu_pwm, 90);
    let command = fan_card_used(&mut app, fan, 80, Some(FanMode::Custom(80)));
    assert_eq!(
        command,
        Some(WorkerCommand::Request {
            label: "设置 CPU 风扇".to_owned(),
            request: IpcRequest::SetFanMode { fan: FanIndex::Cpu, mode: FanMode::Custom(80) },
            refresh_after: true,
        })
    );
    assert_eq!(fan_card_used(&mut app, fan, 0, Some(FanMode::Custom(0))), None);
    let asked = app.confirmation.take().unwrap();
    assert_eq!((asked.title.as_str(), asked.label.as_str()), ("确认风扇设置", "设置 CPU 风扇"));
    assert!(asked.message.starts_with("将风扇 PWM 设为 0") && asked.refresh_after);
    assert_eq!(
        asked.request,
        IpcRequest::SetFanMode { fan: FanIndex::Cpu, mode: FanMode::Custom(0) }
    );
    app.snapshot.capabilities.as_mut().unwrap().fans.clear();
    assert_eq!(thermal(&app), Thermal::NoFans);
}

#[test]
fn power_profiles_are_offered() {
    let mut app = known();
    let choices = power_choices(&app, &n155a_capabilities());
    let shown: Vec<(&str, bool)> =
        choices.iter().map(|choice| (choice.title.as_str(), choice.selected)).collect();
    assert_eq!(shown, vec![("安静", false), ("默认", true), ("性能", false)]);
    assert_eq!(power_profile_used(&app, None), None);
    assert!(power_profile_used(&app, Some(PowerProfile::Silent)).is_some());
    app.action_in_flight = true;
    assert_eq!(power_profile_used(&app, Some(PowerProfile::Silent)), None);
}

#[test]
fn battery_options_are_offered_once() {
    let app = known();
    let mut caps = n155a_capabilities().charge;
    caps.presets.push(("  ".to_owned(), ChargeIntent::Freeze));
    caps.preserve_fixed = Some((60, 80));
    caps.freeze_soc = Some((62, 84));
    let choices = battery_choices(&app, &caps);
    let shown: Vec<(&str, bool)> =
        choices.iter().map(|choice| (choice.title.as_str(), choice.selected)).collect();
    assert_eq!(
        shown,
        vec![
            ("balanced", true),
            ("冻结充电", false),
            ("完全充电", false),
            ("固件电池保护", false),
        ]
    );
    let lines = battery_lines(&app).unwrap();
    assert_eq!(lines.soc, "当前电量：76%");
    assert_eq!(lines.desired, "目标策略：保护阈值 70%–80%");
    assert_eq!(lines.effective, "当前生效：保护阈值 70%–80%");
    assert_eq!(lines.thresholds.as_deref(), Some("当前阈值：70%–80%"));
    assert_eq!(lines.pending, None);
    assert!(battery_lines(&window()).is_none());
}

#[test]
fn threshold_sliders_keep_their_order() {
    let mut app = window();
    app.charge_min = 95;
    app.charge_max = 10;
    let sliders = range_sliders(&app, 20, 90);
    assert_eq!((sliders.min, sliders.max), (90, 90));
    assert_eq!(sliders.label, "自定义阈值（允许范围 20%–90%）");
    app.charge_min = 5;
    let sliders = range_sliders(&app, 20, 90);
    assert_eq!((sliders.min, sliders.max), (20, 20));
    let command = battery_used(&mut app, Some(ChargeIntent::Full), Some((30, 70)), true);
    assert_eq!((app.charge_min, app.charge_max), (30, 70));
    let range = ChargeRange { min: 30, max: 70 };
    assert_eq!(
        command,
        Some(WorkerCommand::Request {
            label: "更新电池保护".to_owned(),
            request: IpcRequest::SetChargeIntent(ChargeIntent::Preserve(Some(range))),
            refresh_after: true,
        })
    );
    assert!(battery_used(&mut app, Some(ChargeIntent::Full), None, true).is_some());
    assert_eq!(battery_used(&mut app, None, Some((1, 2)), false), None);
}

#[test]
fn keyboard_levels_are_offered_as_the_board_has_them() {
    let mut app = known();
    let none = KbdCaps { on_off: false, levels: false, custom: false };
    assert!(keyboard_panel(&app, &none).is_none());
    let panel = keyboard_panel(&app, &n155a_capabilities().kbd).unwrap();
    let shown: Vec<(&str, bool)> =
        panel.choices.iter().map(|choice| (choice.title.as_str(), choice.selected)).collect();
    assert_eq!(shown, vec![("关闭", true), ("低", false), ("中", false), ("高", false)]);
    assert_eq!(panel.current, "当前：关闭");
    assert_eq!(panel.custom, Some(128));
    let switch = KbdCaps { on_off: true, levels: false, custom: false };
    let panel = keyboard_panel(&app, &switch).unwrap();
    assert_eq!(panel.choices.len(), 1);
    assert_eq!(panel.custom, None);
    assert!(keyboard_used(&mut app, 9, Some(KeyboardBacklightLevel::Custom(9))).is_some());
    assert_eq!(app.keyboard_custom, 9);
}

#[test]
fn led_effects_are_offered_as_the_board_has_them() {
    let mut app = known();
    app.snapshot.settings.as_mut().unwrap().led_mode = PowerLedMode::Animation(BreathConfig::Ping);
    let panel = led_panel(&app, &n155a_capabilities().led).unwrap();
    assert_eq!(panel.current, "当前：硬件灯效");
    assert!(!panel.auto_selected);
    assert_eq!(panel.brightness, Some(128));
    let selected: Vec<&str> = panel
        .effects
        .iter()
        .filter(|choice| choice.selected)
        .map(|choice| choice.title.as_str())
        .collect();
    assert_eq!(selected, vec!["脉冲"]);
    let dark = LedCaps { on_off: true, brightness: false, animation: false };
    let panel = led_panel(&app, &dark).unwrap();
    assert!(panel.effects.is_empty());
    assert_eq!(panel.brightness, None);
    let none = LedCaps { on_off: false, brightness: false, animation: false };
    assert!(led_panel(&app, &none).is_none());
    assert!(led_used(&mut app, 3, Some(PowerLedMode::Custom(3))).is_some());
    assert_eq!(app.led_brightness, 3);
}

#[test]
fn desktop_preferences_need_a_notification_area() {
    let (mut app, _) = LecooApp::new(false, true, false, None);
    let panel = desktop_panel(&app);
    assert!(panel.startup_changeable && !panel.minimize_changeable);
    assert_eq!(panel.status, "正在初始化通知区域…");
    assert_eq!(panel.status_color, None);
    app.tray = TrayStatus::Ready;
    let panel = desktop_panel(&app);
    assert!(panel.minimize_changeable);
    assert_eq!(panel.status, "通知区域已就绪。");
    app.tray = TrayStatus::Unavailable("x".to_owned());
    assert_eq!(desktop_panel(&app).status, "通知区域不可用：x");
    startup_changed(&mut app, false, Ok(()));
    assert!(!app.startup_enabled);
    assert_eq!(notice(&app), (NoticeKind::Success, "已关闭登录后启动。"));
    startup_changed(&mut app, true, Err("y".to_owned()));
    assert!(!app.startup_enabled);
    assert_eq!(notice(&app), (NoticeKind::Error, "y"));
    minimize_changed(&mut app, true, Ok(()));
    assert!(app.minimize_to_tray);
    assert_eq!(notice(&app), (NoticeKind::Success, "关闭窗口时将保留在通知区域。"));
}

#[test]
fn settings_are_shown_and_used() {
    assert!(settings_panel(&window()).is_none());
    let mut app = known();
    app.telemetry_id = Some(0xAB);
    let panel = settings_panel(&app).unwrap();
    assert!(panel.enabled);
    assert_eq!(panel.telemetry_id.as_deref(), Some("最近读取的遥测 ID：00000000000000AB"));
    assert_eq!((panel.board.as_str(), panel.chip.as_str()), ("N155A", "ITE"));
    assert_eq!((panel.revision.as_str(), panel.hram_offset.as_str()), ("1.0", "C400"));
    let command = settings_used(&mut app, SettingsAction::ReadTelemetryId);
    assert_eq!(
        command,
        Some(WorkerCommand::Request {
            label: "读取遥测 ID".to_owned(),
            request: IpcRequest::DaemonCommand(DaemonCommand::GetTelemetryId),
            refresh_after: false,
        })
    );
    assert_eq!(settings_used(&mut app, SettingsAction::RestoreDefaults), None);
    assert_eq!(app.confirmation.as_ref().unwrap().label, "恢复默认设置");
    assert!(settings_used(&mut app, SettingsAction::ActivateTelemetry(false)).is_some());
    assert!(settings_used(&mut app, SettingsAction::ApplySettings).is_some());
}
