//! The state of the control centre's window and how it changes.
//!
//! The window is drawn elsewhere. What a click or an event leads to is decided here: how the state
//! changes, what is to be sent to the worker, and what is to be done with the window.
use std::collections::VecDeque;

use vstd::prelude::*;

use super::labels::{fan_change_needs_confirmation, fan_name, fan_text, is_risky};
use super::snapshot::{unknown, Snapshot};
use super::tray::TrayAction;
use super::worker::{WorkerCommand, WorkerEvent};
use crate::text::{around, joined};
use crate::types::{
    FanIndex, FanMode, IpcRequest, KeyboardBacklightLevel, PowerLedMode, PowerProfile,
};

verus! {

#[derive(Clone, Copy, PartialEq, Eq, Debug, Structural)]
pub enum Page {
    Dashboard,
    Thermal,
    PowerAndBattery,
    Lighting,
    Settings,
}

/// How the connection to the daemon stands.
#[derive(PartialEq, Eq, Debug)]
pub enum ConnectionState {
    Connecting,
    Online,
    /// With the reason.
    Offline(String),
}

#[derive(Clone, Copy, PartialEq, Eq, Debug, Structural)]
pub enum NoticeKind {
    Info,
    Success,
    Error,
}

/// A line about what has just happened.
#[derive(PartialEq, Eq, Debug)]
pub struct Notice {
    pub kind: NoticeKind,
    pub text: String,
}

/// A request that waits for the user's approval.
#[derive(PartialEq, Eq, Debug)]
pub struct Confirmation {
    pub title: String,
    pub message: String,
    pub label: String,
    pub request: IpcRequest,
    pub refresh_after: bool,
}

/// Whether there is an icon in the notification area.
#[derive(PartialEq, Eq, Debug)]
pub enum TrayStatus {
    Pending,
    Ready,
    /// With the reason.
    Unavailable(String),
}

/// What is done with the window.
#[derive(Clone, Copy, PartialEq, Eq, Debug, Structural)]
pub enum WindowEffect {
    /// Show or hide the native window with this handle.
    Native(isize, bool),
    /// Show or hide the viewport.
    Visible(bool),
    Focus,
    Close,
    /// Take the user's wish to close the window back.
    CancelClose,
    /// Hide the native window with this handle, if any, once it has been painted.
    HideAfterStartup(Option<isize>),
}

/// The state of the window.
pub struct LecooApp {
    pub snapshot: Snapshot,
    pub connection: ConnectionState,
    pub page: Page,
    pub notice: Option<Notice>,
    pub confirmation: Option<Confirmation>,
    pub refresh_in_flight: bool,
    pub action_in_flight: bool,
    pub cpu_pwm: u8,
    pub gpu_pwm: u8,
    pub keyboard_custom: u8,
    pub led_brightness: u8,
    pub charge_min: u8,
    pub charge_max: u8,
    pub charge_range_initialized: bool,
    pub telemetry_id: Option<u64>,
    pub tray: TrayStatus,
    pub startup_enabled: bool,
    pub minimize_to_tray: bool,
    pub allow_exit: bool,
    pub launched_minimized: bool,
    pub main_window_handle: Option<isize>,
}

/// The notice says `text`.
pub open spec fn says(notice: Option<Notice>, kind: NoticeKind, text: Seq<char>) -> bool {
    notice matches Some(shown) && shown.kind == kind && shown.text@ == text
}

/// The connection is down because of `reason`.
pub open spec fn is_offline(connection: ConnectionState, reason: Seq<char>) -> bool {
    connection matches ConnectionState::Offline(text) && text@ == reason
}

/// What showing the window takes.
pub open spec fn showing(handle: Option<isize>) -> Seq<WindowEffect> {
    match handle {
        Some(handle) => seq![
            WindowEffect::Native(handle, true),
            WindowEffect::Visible(true),
            WindowEffect::Focus,
        ],
        None => seq![WindowEffect::Visible(true), WindowEffect::Focus],
    }
}

/// What hiding the window takes.
pub open spec fn hiding(handle: Option<isize>) -> Seq<WindowEffect> {
    match handle {
        Some(handle) => seq![WindowEffect::Native(handle, false), WindowEffect::Visible(false)],
        None => seq![WindowEffect::Visible(false)],
    }
}

/// What the actions of the notification area do to the window, in order.
pub open spec fn tray_effects(handle: Option<isize>, actions: Seq<TrayAction>) -> Seq<WindowEffect>
    decreases actions.len(),
{
    if actions.len() == 0 {
        Seq::empty()
    } else {
        tray_effects(handle, actions.drop_last()) + match actions.last() {
            TrayAction::Show => showing(handle),
            TrayAction::Hide => hiding(handle),
            TrayAction::Exit => seq![WindowEffect::Close],
        }
    }
}

impl LecooApp {
    /// The state of a window that has just been opened: nothing is known, the sliders stand in the
    /// middle, and the state of the machine is being read.
    pub open spec fn opened(
        launch_minimized: bool,
        startup_enabled: bool,
        minimize_to_tray: bool,
        main_window_handle: Option<isize>,
    ) -> LecooApp {
        LecooApp {
            snapshot: unknown(),
            connection: ConnectionState::Connecting,
            page: Page::Dashboard,
            notice: None,
            confirmation: None,
            refresh_in_flight: true,
            action_in_flight: false,
            cpu_pwm: 128,
            gpu_pwm: 128,
            keyboard_custom: 128,
            led_brightness: 128,
            charge_min: 60,
            charge_max: 80,
            charge_range_initialized: false,
            telemetry_id: None,
            tray: TrayStatus::Pending,
            startup_enabled,
            minimize_to_tray,
            allow_exit: false,
            launched_minimized: launch_minimized,
            main_window_handle,
        }
    }

    /// The state of a window that has just been opened, with the reading of the machine's state
    /// under way: the command that is returned has to be sent. See [`Self::refresh_sent`].
    pub fn new(
        launch_minimized: bool,
        startup_enabled: bool,
        minimize_to_tray: bool,
        main_window_handle: Option<isize>,
    ) -> (opened: (LecooApp, WorkerCommand))
        ensures
            opened.1 == WorkerCommand::Refresh,
            opened.0 == Self::opened(
                launch_minimized,
                startup_enabled,
                minimize_to_tray,
                main_window_handle,
            ),
    {
        let app = LecooApp {
            snapshot: Snapshot::default(),
            connection: ConnectionState::Connecting,
            page: Page::Dashboard,
            notice: None,
            confirmation: None,
            refresh_in_flight: true,
            action_in_flight: false,
            cpu_pwm: 128,
            gpu_pwm: 128,
            keyboard_custom: 128,
            led_brightness: 128,
            charge_min: 60,
            charge_max: 80,
            charge_range_initialized: false,
            telemetry_id: None,
            tray: TrayStatus::Pending,
            startup_enabled,
            minimize_to_tray,
            allow_exit: false,
            launched_minimized: launch_minimized,
            main_window_handle,
        };
        (app, WorkerCommand::Refresh)
    }

    /// Whether the worker has something to do.
    pub open spec fn busy(self) -> bool {
        self.refresh_in_flight || self.action_in_flight
    }

    /// Whether the worker has something to do.
    pub fn is_busy(&self) -> (busy: bool)
        ensures
            busy == self.busy(),
    {
        self.refresh_in_flight || self.action_in_flight
    }

    // ---- The notification area ----

    /// Whether there is an icon in the notification area.
    pub fn tray_is_ready(&self) -> (ready: bool)
        ensures
            ready == (self.tray is Ready),
    {
        match self.tray {
            TrayStatus::Ready => true,
            _ => false,
        }
    }

    /// Whether the icon in the notification area has still to be made.
    pub fn needs_tray(&self) -> (needed: bool)
        ensures
            needed == (self.tray is Pending),
    {
        match self.tray {
            TrayStatus::Pending => true,
            _ => false,
        }
    }

    /// `after` is the state, and `effects` is what is done with the window, once the icon has been
    /// made or not.
    pub open spec fn iconed(
        before: LecooApp,
        made: Result<(), String>,
        effects: Seq<WindowEffect>,
        after: LecooApp,
    ) -> bool {
        if !(before.tray is Pending) {
            after == before && effects == Seq::<WindowEffect>::empty()
        } else {
            match made {
                Ok(()) => {
                    &&& after == (LecooApp {
                        tray: TrayStatus::Ready,
                        launched_minimized: false,
                        ..before
                    })
                    &&& effects == if before.launched_minimized {
                        seq![WindowEffect::HideAfterStartup(before.main_window_handle)]
                    } else {
                        Seq::empty()
                    }
                },
                Err(error) => {
                    &&& after == (LecooApp {
                        tray: TrayStatus::Unavailable(error),
                        launched_minimized: false,
                        notice: after.notice,
                        ..before
                    })
                    &&& says(
                        after.notice,
                        NoticeKind::Error,
                        "Windows 通知区域不可用："@ + error@,
                    )
                    &&& effects == if before.launched_minimized {
                        showing(before.main_window_handle)
                    } else {
                        Seq::empty()
                    }
                },
            }
        }
    }

    /// Takes the outcome of making the icon in, unless there was one before. A window that was
    /// started minimized goes to the notification area if there is one, and is shown if not.
    pub fn ensure_tray(&mut self, made: Result<(), String>) -> (effects: Vec<WindowEffect>)
        ensures
            Self::iconed(*old(self), made, effects@, *final(self)),
    {
        if !self.needs_tray() {
            return Vec::new();
        }
        let was_minimized = self.launched_minimized;
        self.launched_minimized = false;
        match made {
            Ok(()) => {
                self.tray = TrayStatus::Ready;
                let mut effects: Vec<WindowEffect> = Vec::new();
                if was_minimized {
                    effects.push(WindowEffect::HideAfterStartup(self.main_window_handle));
                }
                effects
            },
            Err(error) => {
                let text = joined("Windows 通知区域不可用：", error.as_str());
                self.tray = TrayStatus::Unavailable(error);
                self.set_notice(NoticeKind::Error, text);
                if was_minimized {
                    self.show_main_window()
                } else {
                    Vec::new()
                }
            },
        }
    }

    /// What showing the window takes.
    pub fn show_main_window(&self) -> (effects: Vec<WindowEffect>)
        ensures
            effects@ == showing(self.main_window_handle),
    {
        let mut effects: Vec<WindowEffect> = Vec::new();
        if let Some(handle) = self.main_window_handle {
            effects.push(WindowEffect::Native(handle, true));
        }
        effects.push(WindowEffect::Visible(true));
        effects.push(WindowEffect::Focus);
        effects
    }

    /// What hiding the window takes.
    pub fn hide_main_window(&self) -> (effects: Vec<WindowEffect>)
        ensures
            effects@ == hiding(self.main_window_handle),
    {
        let mut effects: Vec<WindowEffect> = Vec::new();
        if let Some(handle) = self.main_window_handle {
            effects.push(WindowEffect::Native(handle, false));
        }
        effects.push(WindowEffect::Visible(false));
        effects
    }

    /// The state after what was asked for in the notification area.
    pub open spec fn after_tray(self, actions: Seq<TrayAction>) -> LecooApp {
        if self.tray is Ready {
            LecooApp {
                launched_minimized: self.launched_minimized && !actions.contains(TrayAction::Show),
                allow_exit: self.allow_exit || actions.contains(TrayAction::Exit),
                ..self
            }
        } else {
            self
        }
    }

    /// Does what was asked for in the notification area. A window that was shown from there counts
    /// as minimized no longer; one that was left from there may be closed.
    pub fn process_tray_actions(&mut self, actions: &Vec<TrayAction>) -> (effects: Vec<
        WindowEffect,
    >)
        ensures
            *final(self) == old(self).after_tray(actions@),
            effects@ == if old(self).tray is Ready {
                tray_effects(old(self).main_window_handle, actions@)
            } else {
                Seq::empty()
            },
    {
        let mut effects: Vec<WindowEffect> = Vec::new();
        if !self.tray_is_ready() {
            return effects;
        }
        let mut i: usize = 0;
        while i < actions.len()
            invariant
                i <= actions@.len(),
                *self == (LecooApp {
                    launched_minimized: old(self).launched_minimized && !actions@.take(
                        i as int,
                    ).contains(TrayAction::Show),
                    allow_exit: old(self).allow_exit || actions@.take(i as int).contains(
                        TrayAction::Exit,
                    ),
                    ..*old(self)
                }),
                effects@ == tray_effects(old(self).main_window_handle, actions@.take(i as int)),
            decreases actions.len() - i,
        {
            proof {
                lemma_one_more(actions@, i as int);
            }
            match actions[i] {
                TrayAction::Show => {
                    self.launched_minimized = false;
                    let mut more = self.show_main_window();
                    effects.append(&mut more);
                },
                TrayAction::Hide => {
                    let mut more = self.hide_main_window();
                    effects.append(&mut more);
                },
                TrayAction::Exit => {
                    self.allow_exit = true;
                    effects.push(WindowEffect::Close);
                },
            }
            i = i + 1;
        }
        assert(actions@.take(i as int) =~= actions@);
        effects
    }

    /// What the wish to close the window comes to.
    pub open spec fn closing(self, close_requested: bool) -> Seq<WindowEffect> {
        if close_requested && self.minimize_to_tray && self.tray is Ready && !self.allow_exit {
            seq![WindowEffect::CancelClose] + hiding(self.main_window_handle)
        } else {
            Seq::empty()
        }
    }

    /// Keeps the window in the notification area when it is closed, if that is wanted and possible
    /// and the user has not left the program.
    pub fn keep_window_in_tray_when_requested(&self, close_requested: bool) -> (effects: Vec<
        WindowEffect,
    >)
        ensures
            effects@ == self.closing(close_requested),
    {
        let mut effects: Vec<WindowEffect> = Vec::new();
        if close_requested && self.minimize_to_tray && self.tray_is_ready() && !self.allow_exit {
            effects.push(WindowEffect::CancelClose);
            let mut more = self.hide_main_window();
            effects.append(&mut more);
        }
        effects
    }

    // ---- Talking to the worker ----

    /// `command` is what is to be sent to read the state of the machine, and `after` is the state then.
    pub open spec fn asked_to_refresh(
        before: LecooApp,
        command: Option<WorkerCommand>,
        after: LecooApp,
    ) -> bool {
        if before.busy() {
            command is None && after == before
        } else {
            command == Some(WorkerCommand::Refresh) && after == (LecooApp {
                refresh_in_flight: true,
                ..before
            })
        }
    }

    /// Starts reading the state of the machine, unless the worker is busy: the command that is
    /// returned has to be sent. See [`Self::refresh_sent`].
    pub fn refresh_now(&mut self) -> (command: Option<WorkerCommand>)
        ensures
            Self::asked_to_refresh(*old(self), command, *final(self)),
    {
        if self.is_busy() {
            return None;
        }
        self.refresh_in_flight = true;
        Some(WorkerCommand::Refresh)
    }

    /// `after` is the state once the command to read the state of the machine was sent or not.
    pub open spec fn refreshing(before: LecooApp, delivered: bool, after: LecooApp) -> bool {
        if delivered {
            after == before
        } else {
            &&& after == (LecooApp {
                refresh_in_flight: false,
                connection: after.connection,
                notice: after.notice,
                ..before
            })
            &&& is_offline(after.connection, "IPC 工作线程已停止"@)
            &&& says(after.notice, NoticeKind::Error, "无法启动后台通信。"@)
        }
    }

    /// Takes in whether the command of [`Self::refresh_now`] reached the worker.
    pub fn refresh_sent(&mut self, delivered: bool)
        ensures
            Self::refreshing(*old(self), delivered, *final(self)),
    {
        if !delivered {
            self.refresh_in_flight = false;
            self.connection = ConnectionState::Offline("IPC 工作线程已停止".to_owned());
            self.set_notice(NoticeKind::Error, "无法启动后台通信。".to_owned());
        }
    }

    /// The command that passes a request on; none while the worker is busy.
    pub open spec fn passed_on(
        self,
        label: String,
        request: IpcRequest,
        refresh_after: bool,
    ) -> Option<WorkerCommand> {
        if self.busy() {
            None
        } else {
            Some(WorkerCommand::Request { label, request, refresh_after })
        }
    }

    /// Passes a request on, unless the worker is busy: the command that is returned has to be sent.
    /// See [`Self::submitted`].
    pub fn submit(&self, label: String, request: IpcRequest, refresh_after: bool) -> (command:
        Option<WorkerCommand>)
        ensures
            command == self.passed_on(label, request, refresh_after),
    {
        if self.is_busy() {
            return None;
        }
        Some(WorkerCommand::Request { label, request, refresh_after })
    }

    /// `after` is the state once the command for the action `label` was sent or not.
    pub open spec fn acting(
        before: LecooApp,
        label: Seq<char>,
        delivered: bool,
        after: LecooApp,
    ) -> bool {
        if delivered {
            &&& after == (LecooApp { action_in_flight: true, notice: after.notice, ..before })
            &&& says(after.notice, NoticeKind::Info, label + "：正在处理…"@)
        } else {
            &&& after == (LecooApp {
                connection: after.connection,
                notice: after.notice,
                ..before
            })
            &&& is_offline(after.connection, "IPC 工作线程已停止"@)
            &&& says(after.notice, NoticeKind::Error, "无法向后台服务发送操作。"@)
        }
    }

    /// Takes in whether the command of [`Self::submit`] for the action `label` reached the worker.
    pub fn submitted(&mut self, label: &str, delivered: bool)
        ensures
            Self::acting(*old(self), label@, delivered, *final(self)),
    {
        if delivered {
            self.action_in_flight = true;
            self.set_notice(NoticeKind::Info, joined(label, "：正在处理…"));
        } else {
            self.connection = ConnectionState::Offline("IPC 工作线程已停止".to_owned());
            self.set_notice(NoticeKind::Error, "无法向后台服务发送操作。".to_owned());
        }
    }

    /// Replaces the notice.
    pub fn set_notice(&mut self, kind: NoticeKind, text: String)
        ensures
            *final(self) == (LecooApp { notice: Some(Notice { kind, text }), ..*old(self) }),
    {
        self.notice = Some(Notice { kind, text });
    }

    /// `after` is the state after an event of the worker.
    pub open spec fn took(before: LecooApp, event: WorkerEvent, after: LecooApp) -> bool {
        match event {
            WorkerEvent::Snapshot(Ok(snapshot)) => after == (LecooApp {
                refresh_in_flight: false,
                connection: ConnectionState::Online,
                ..before.absorbed(snapshot)
            }),
            WorkerEvent::Snapshot(Err(error)) => {
                &&& after == (LecooApp {
                    refresh_in_flight: false,
                    connection: ConnectionState::Offline(error),
                    notice: after.notice,
                    ..before
                })
                &&& says(after.notice, NoticeKind::Error, error@)
            },
            WorkerEvent::Action { label, result: Ok(outcome) } => {
                &&& after == (LecooApp {
                    action_in_flight: false,
                    telemetry_id: match outcome.telemetry_id {
                        Some(id) => Some(id),
                        None => before.telemetry_id,
                    },
                    notice: after.notice,
                    ..before
                })
                &&& says(after.notice, NoticeKind::Success, label@ + "："@ + outcome.message@)
            },
            WorkerEvent::Action { label, result: Err(error) } => {
                &&& after == (LecooApp {
                    action_in_flight: false,
                    notice: after.notice,
                    ..before
                })
                &&& says(after.notice, NoticeKind::Error, label@ + "："@ + error@)
            },
        }
    }

    /// Takes one event of the worker in.
    pub fn take_event(&mut self, event: WorkerEvent)
        ensures
            Self::took(*old(self), event, *final(self)),
    {
        match event {
            WorkerEvent::Snapshot(result) => {
                self.refresh_in_flight = false;
                match result {
                    Ok(snapshot) => {
                        self.absorb_snapshot(snapshot);
                        self.connection = ConnectionState::Online;
                    },
                    Err(error) => {
                        self.connection = ConnectionState::Offline(error.clone());
                        self.set_notice(NoticeKind::Error, error);
                    },
                }
            },
            WorkerEvent::Action { label, result } => {
                self.action_in_flight = false;
                match result {
                    Ok(outcome) => {
                        if let Some(id) = outcome.telemetry_id {
                            self.telemetry_id = Some(id);
                        }
                        let mut text = joined(label.as_str(), "：");
                        text.append(outcome.message.as_str());
                        self.set_notice(NoticeKind::Success, text);
                    },
                    Err(error) => {
                        let mut text = joined(label.as_str(), "：");
                        text.append(error.as_str());
                        self.set_notice(NoticeKind::Error, text);
                    },
                }
            },
        }
    }

    /// `states` leads from one state to the next by one event each.
    pub open spec fn took_all(states: Seq<LecooApp>, events: Seq<WorkerEvent>) -> bool {
        &&& states.len() == events.len() + 1
        &&& forall|i: int|
            0 <= i < events.len() ==> Self::took(states[i], #[trigger] events[i], states[i + 1])
    }

    /// Takes every event in that the worker has reported, in order.
    pub fn pump_events(&mut self, events: &mut VecDeque<WorkerEvent>)
        ensures
            final(events)@.len() == 0,
            exists|states: Seq<LecooApp>| #[trigger]
                Self::took_all(states, old(events)@) && states.first() == *old(self)
                    && states.last() == *final(self),
    {
        let ghost all = events@;
        let ghost mut states: Seq<LecooApp> = seq![*self];
        loop
            invariant
                all == old(events)@,
                events@.len() <= all.len(),
                events@ == all.skip(all.len() - events@.len()),
                Self::took_all(states, all.take(all.len() - events@.len())),
                states.first() == *old(self),
                states.last() == *self,
            ensures
                events@.len() == 0,
                Self::took_all(states, all),
                states.first() == *old(self),
                states.last() == *self,
            decreases events@.len(),
        {
            let ghost left = events@;
            let ghost seen = all.take(all.len() - left.len());
            match events.pop_front() {
                None => {
                    assert(seen =~= all);
                    break;
                },
                Some(event) => {
                    self.take_event(event);
                    proof {
                        let now = all.take(all.len() - events@.len());
                        let longer = states.push(*self);
                        assert(left[0] == all[all.len() - left.len()]);
                        assert(now =~= seen.push(event));
                        assert(events@ =~= all.skip(all.len() - events@.len()));
                        assert(states.last() == states[seen.len() as int]);
                        assert forall|i: int| 0 <= i < now.len() implies Self::took(
                            longer[i],
                            #[trigger] now[i],
                            longer[i + 1],
                        ) by {
                            if i < seen.len() {
                                assert(now[i] == seen[i]);
                                assert(longer[i] == states[i]);
                                assert(longer[i + 1] == states[i + 1]);
                            }
                        }
                        states = longer;
                    }
                },
            }
        }
    }

    /// The state with a snapshot taken in. Custom levels of the machine become those of the
    /// sliders; the range of the charge thresholds does so once.
    pub open spec fn absorbed(self, snapshot: Snapshot) -> LecooApp {
        let settings = snapshot.settings;
        let range = match snapshot.capabilities {
            Some(capabilities) => capabilities.charge.custom_range,
            None => None,
        };
        let fresh = !self.charge_range_initialized && range is Some;
        LecooApp {
            cpu_pwm: match settings {
                Some(kept) => match kept.fan_mode_cpu {
                    FanMode::Custom(value) => value,
                    _ => self.cpu_pwm,
                },
                None => self.cpu_pwm,
            },
            gpu_pwm: match settings {
                Some(kept) => match kept.fan_mode_gpu {
                    FanMode::Custom(value) => value,
                    _ => self.gpu_pwm,
                },
                None => self.gpu_pwm,
            },
            keyboard_custom: match settings {
                Some(kept) => match kept.keyboard_backlight {
                    KeyboardBacklightLevel::Custom(value) => value,
                    _ => self.keyboard_custom,
                },
                None => self.keyboard_custom,
            },
            led_brightness: match settings {
                Some(kept) => match kept.led_mode {
                    PowerLedMode::Custom(value) => value,
                    _ => self.led_brightness,
                },
                None => self.led_brightness,
            },
            charge_min: if fresh {
                range->Some_0.0
            } else {
                self.charge_min
            },
            charge_max: if fresh {
                range->Some_0.1
            } else {
                self.charge_max
            },
            charge_range_initialized: self.charge_range_initialized || range is Some,
            snapshot,
            ..self
        }
    }

    /// Takes a snapshot in.
    pub fn absorb_snapshot(&mut self, snapshot: Snapshot)
        ensures
            *final(self) == old(self).absorbed(snapshot),
    {
        if let Some(settings) = &snapshot.settings {
            if let FanMode::Custom(value) = settings.fan_mode_cpu {
                self.cpu_pwm = value;
            }
            if let FanMode::Custom(value) = settings.fan_mode_gpu {
                self.gpu_pwm = value;
            }
            if let KeyboardBacklightLevel::Custom(value) = settings.keyboard_backlight {
                self.keyboard_custom = value;
            }
            if let PowerLedMode::Custom(value) = settings.led_mode {
                self.led_brightness = value;
            }
        }
        if !self.charge_range_initialized {
            if let Some(capabilities) = &snapshot.capabilities {
                if let Some((min, max)) = capabilities.charge.custom_range {
                    self.charge_min = min;
                    self.charge_max = max;
                    self.charge_range_initialized = true;
                }
            }
        }
        self.snapshot = snapshot;
    }

    // ---- What is shown of the machine ----

    /// The mode of a fan, as far as it is known.
    pub open spec fn mode_of(self, index: FanIndex) -> FanMode {
        match self.snapshot.settings {
            Some(settings) => match index {
                FanIndex::Cpu => settings.fan_mode_cpu,
                FanIndex::Gpu => settings.fan_mode_gpu,
            },
            None => FanMode::Auto,
        }
    }

    /// The mode of a fan; automatic as long as it is not known.
    pub fn fan_mode(&self, index: FanIndex) -> (mode: FanMode)
        ensures
            mode == self.mode_of(index),
    {
        match &self.snapshot.settings {
            Some(settings) => match index {
                FanIndex::Cpu => settings.fan_mode_cpu,
                FanIndex::Gpu => settings.fan_mode_gpu,
            },
            None => FanMode::default(),
        }
    }

    /// The slider of a fan.
    pub open spec fn pwm_of(self, index: FanIndex) -> u8 {
        match index {
            FanIndex::Cpu => self.cpu_pwm,
            FanIndex::Gpu => self.gpu_pwm,
        }
    }

    /// Where the slider of a fan stands.
    pub fn fan_pwm(&self, index: FanIndex) -> (value: u8)
        ensures
            value == self.pwm_of(index),
    {
        match index {
            FanIndex::Cpu => self.cpu_pwm,
            FanIndex::Gpu => self.gpu_pwm,
        }
    }

    /// Moves the slider of a fan.
    pub fn set_fan_pwm(&mut self, index: FanIndex, value: u8)
        ensures
            *final(self) == match index {
                FanIndex::Cpu => LecooApp { cpu_pwm: value, ..*old(self) },
                FanIndex::Gpu => LecooApp { gpu_pwm: value, ..*old(self) },
            },
    {
        match index {
            FanIndex::Cpu => {
                self.cpu_pwm = value;
            },
            FanIndex::Gpu => {
                self.gpu_pwm = value;
            },
        }
    }

    /// The power profile: as it was read, else as it is remembered, else the default one.
    pub open spec fn profile(self) -> PowerProfile {
        match self.snapshot.power_profile {
            Some(profile) => profile,
            None => match self.snapshot.settings {
                Some(settings) => settings.power_profile,
                None => PowerProfile::Default,
            },
        }
    }

    /// The power profile: as it was read, else as it is remembered, else the default one.
    pub fn current_power_profile(&self) -> (profile: PowerProfile)
        ensures
            profile == self.profile(),
    {
        match self.snapshot.power_profile {
            Some(profile) => profile,
            None => match &self.snapshot.settings {
                Some(settings) => settings.power_profile,
                None => PowerProfile::default(),
            },
        }
    }

    /// The keyboard backlight: as it was read, else as it is remembered, else off.
    pub open spec fn backlight(self) -> KeyboardBacklightLevel {
        match self.snapshot.keyboard_backlight {
            Some(level) => level,
            None => match self.snapshot.settings {
                Some(settings) => settings.keyboard_backlight,
                None => KeyboardBacklightLevel::Off,
            },
        }
    }

    /// The keyboard backlight: as it was read, else as it is remembered, else off.
    pub fn current_keyboard_backlight(&self) -> (level: KeyboardBacklightLevel)
        ensures
            level == self.backlight(),
    {
        match self.snapshot.keyboard_backlight {
            Some(level) => level,
            None => match &self.snapshot.settings {
                Some(settings) => settings.keyboard_backlight,
                None => KeyboardBacklightLevel::default(),
            },
        }
    }

    /// The mode of the LED ring, as it is remembered.
    pub open spec fn ring(self) -> PowerLedMode {
        match self.snapshot.settings {
            Some(settings) => settings.led_mode,
            None => PowerLedMode::Auto,
        }
    }

    /// The mode of the LED ring, as it is remembered.
    pub fn current_led_mode(&self) -> (mode: PowerLedMode)
        ensures
            mode == self.ring(),
    {
        match &self.snapshot.settings {
            Some(settings) => settings.led_mode,
            None => PowerLedMode::default(),
        }
    }

    // ---- Asking first ----

    /// `command` is what is to be sent, and `after` is the state, once the user has chosen a mode for
    /// a fan.
    pub open spec fn chose(
        before: LecooApp,
        index: FanIndex,
        mode: FanMode,
        command: Option<WorkerCommand>,
        after: LecooApp,
    ) -> bool {
        if is_risky(mode) {
            &&& command is None
            &&& after == (LecooApp { confirmation: after.confirmation, ..before })
            &&& after.confirmation matches Some(asked) && {
                &&& asked.title@ == "确认风扇设置"@
                &&& asked.message@ == warning(mode)
                &&& asked.label@ == "设置 "@ + fan_text(index) + " 风扇"@
                &&& asked.request == (IpcRequest::SetFanMode { fan: index, mode })
                &&& asked.refresh_after
            }
        } else {
            &&& after == before
            &&& if before.busy() {
                command is None
            } else {
                command matches Some(WorkerCommand::Request { label, request, refresh_after })
                    && label@ == "设置 "@ + fan_text(index) + " 风扇"@ && request == (
                IpcRequest::SetFanMode { fan: index, mode }) && refresh_after
            }
        }
    }

    /// Lets the user choose a mode for a fan. A risky mode waits for approval; any other is passed
    /// on, unless the worker is busy: the command that is returned has to be sent.
    pub fn choose_fan_mode(&mut self, index: FanIndex, mode: FanMode) -> (command: Option<
        WorkerCommand,
    >)
        ensures
            Self::chose(*old(self), index, mode, command, *final(self)),
    {
        let label = around("设置 ", fan_name(index).to_owned(), " 风扇");
        let request = IpcRequest::SetFanMode { fan: index, mode };
        if fan_change_needs_confirmation(mode) {
            let message = match mode {
                FanMode::Turbo => "Turbo 模式会绕过常规安全保护。仅在您了解散热风险时继续。",
                _ => "将风扇 PWM 设为 0 可能导致过热。仅在您确定设备处于安全状态时继续。",
            };
            self.ask_confirmation(
                "确认风扇设置".to_owned(),
                message.to_owned(),
                label,
                request,
                true,
            );
            None
        } else {
            self.submit(label, request, true)
        }
    }

    /// Asks the user before a request is passed on.
    pub fn ask_confirmation(
        &mut self,
        title: String,
        message: String,
        label: String,
        request: IpcRequest,
        refresh_after: bool,
    )
        ensures
            *final(self) == (LecooApp {
                confirmation: Some(Confirmation { title, message, label, request, refresh_after }),
                ..*old(self)
            }),
    {
        self.confirmation = Some(Confirmation { title, message, label, request, refresh_after });
    }

    /// `command` is what is to be sent, and `after` is the state, once the user has decided on the
    /// open question.
    pub open spec fn decided(
        before: LecooApp,
        approved: bool,
        command: Option<WorkerCommand>,
        after: LecooApp,
    ) -> bool {
        let asked = before.confirmation->Some_0;
        if approved {
            &&& after == (LecooApp { confirmation: None, ..before })
            &&& command == if before.busy() {
                None
            } else {
                Some(
                    WorkerCommand::Request {
                        label: asked.label,
                        request: asked.request,
                        refresh_after: asked.refresh_after,
                    },
                )
            }
        } else {
            &&& after == (LecooApp { confirmation: None, notice: after.notice, ..before })
            &&& says(after.notice, NoticeKind::Info, "已取消操作。"@)
            &&& command is None
        }
    }

    /// Takes the user's decision in. An approved request is passed on, unless the worker is busy:
    /// the command that is returned has to be sent. Either way the question is gone.
    pub fn decide(&mut self, approved: bool) -> (command: Option<WorkerCommand>)
        requires
            old(self).confirmation is Some,
        ensures
            Self::decided(*old(self), approved, command, *final(self)),
    {
        match self.confirmation.take() {
            Some(pending) => {
                if approved {
                    self.submit(pending.label, pending.request, pending.refresh_after)
                } else {
                    self.set_notice(NoticeKind::Info, "已取消操作。".to_owned());
                    None
                }
            },
            None => None,
        }
    }
}

/// Events of the worker leave what the user has chosen alone: the page, the open question, and the
/// ways of the notification area.
pub proof fn law_events_leave_the_users_choices(
    before: LecooApp,
    event: WorkerEvent,
    after: LecooApp,
)
    requires
        LecooApp::took(before, event, after),
    ensures
        after.page == before.page,
        after.confirmation == before.confirmation,
        after.tray == before.tray,
        after.startup_enabled == before.startup_enabled,
        after.minimize_to_tray == before.minimize_to_tray,
        after.allow_exit == before.allow_exit,
{
}

/// What the worker reports frees the way for the next of its kind: an outcome for the next action, a
/// snapshot for the next refresh.
pub proof fn law_reports_free_the_worker(before: LecooApp, event: WorkerEvent, after: LecooApp)
    requires
        LecooApp::took(before, event, after),
    ensures
        event is Action ==> !after.action_in_flight && after.refresh_in_flight
            == before.refresh_in_flight,
        event is Snapshot ==> !after.refresh_in_flight && after.action_in_flight
            == before.action_in_flight,
{
}

/// The thresholds that the user has set are not overwritten by later snapshots: the range of the
/// machine is taken over once.
pub proof fn law_charge_range_is_taken_over_once(app: LecooApp, first: Snapshot, second: Snapshot)
    requires
        app.absorbed(first).charge_range_initialized,
    ensures
        app.absorbed(first).absorbed(second).charge_min == app.absorbed(first).charge_min,
        app.absorbed(first).absorbed(second).charge_max == app.absorbed(first).charge_max,
{
}

/// The warning before a risky fan mode.
pub open spec fn warning(mode: FanMode) -> Seq<char> {
    if mode is Turbo {
        "Turbo 模式会绕过常规安全保护。仅在您了解散热风险时继续。"@
    } else {
        "将风扇 PWM 设为 0 可能导致过热。仅在您确定设备处于安全状态时继续。"@
    }
}

proof fn lemma_one_more(actions: Seq<TrayAction>, i: int)
    requires
        0 <= i < actions.len(),
    ensures
        actions.take(i + 1).drop_last() == actions.take(i),
        actions.take(i + 1).last() == actions[i],
        forall|action: TrayAction| #[trigger]
            actions.take(i + 1).contains(action) <==> actions.take(i).contains(action) || actions[i]
                == action,
{
    assert(actions.take(i + 1).drop_last() =~= actions.take(i));
    assert forall|action: TrayAction| #[trigger]
        actions.take(i + 1).contains(action) <==> actions.take(i).contains(action) || actions[i]
            == action by {
        if actions.take(i).contains(action) {
            let k = choose|k: int| 0 <= k < i && actions.take(i)[k] == action;
            assert(actions.take(i + 1)[k] == action);
        }
        if actions[i] == action {
            assert(actions.take(i + 1)[i] == action);
        }
        let longer = actions.take(i + 1);
        if longer.contains(action) {
            let k = choose|k: int| 0 <= k < longer.len() && longer[k] == action;
            if k < i {
                assert(actions.take(i)[k] == action);
            }
        }
    }
}

// ---- What holds of the window and its state ----

/// The worker is busy while a refresh or an action is under way.
pub proof fn law_when_the_worker_is_busy(app: LecooApp)
    ensures
        !app.busy() <==> !app.refresh_in_flight && !app.action_in_flight,
{
}

/// Showing and hiding the window: both go through the native window first, where there is one, and
/// then through the viewport; only a window that is shown gets the focus.
pub proof fn law_showing_and_hiding(handle: Option<isize>)
    ensures
        handle matches Some(native) ==> {
            &&& showing(handle) == seq![
                WindowEffect::Native(native, true),
                WindowEffect::Visible(true),
                WindowEffect::Focus,
            ]
            &&& hiding(handle) == seq![
                WindowEffect::Native(native, false),
                WindowEffect::Visible(false),
            ]
        },
        handle is None ==> {
            &&& showing(handle) == seq![WindowEffect::Visible(true), WindowEffect::Focus]
            &&& hiding(handle) == seq![WindowEffect::Visible(false)]
        },
{
}

/// The actions of the notification area take effect one after the other: what several of them do is
/// what the first ones do, and then what the others do.
pub proof fn law_tray_actions_in_turn(
    handle: Option<isize>,
    first: Seq<TrayAction>,
    second: Seq<TrayAction>,
)
    ensures
        tray_effects(handle, first + second) == tray_effects(handle, first) + tray_effects(
            handle,
            second,
        ),
    decreases second.len(),
{
    if second.len() == 0 {
        assert(first + second =~= first);
        assert(tray_effects(handle, first) + Seq::empty() =~= tray_effects(handle, first));
    } else {
        law_tray_actions_in_turn(handle, first, second.drop_last());
        assert((first + second).drop_last() =~= first + second.drop_last());
        assert((first + second).last() == second.last());
        assert(tray_effects(handle, first + second) =~= tray_effects(handle, first) + tray_effects(
            handle,
            second,
        ));
    }
}

/// What one action of the notification area does: it shows the window, hides it, or closes it.
pub proof fn law_one_tray_action(handle: Option<isize>)
    ensures
        tray_effects(handle, seq![TrayAction::Show]) == showing(handle),
        tray_effects(handle, seq![TrayAction::Hide]) == hiding(handle),
        tray_effects(handle, seq![TrayAction::Exit]) == seq![WindowEffect::Close],
        tray_effects(handle, Seq::empty()) == Seq::<WindowEffect>::empty(),
{
    reveal_with_fuel(tray_effects, 3);
    let none = Seq::<TrayAction>::empty();
    assert(seq![TrayAction::Show].drop_last() =~= none);
    assert(seq![TrayAction::Hide].drop_last() =~= none);
    assert(seq![TrayAction::Exit].drop_last() =~= none);
    let nothing = Seq::<WindowEffect>::empty();
    assert(nothing + showing(handle) =~= showing(handle));
    assert(nothing + hiding(handle) =~= hiding(handle));
}

/// What an event of the worker does to the connection, the notice and what is known: a snapshot puts
/// the window online and is what is known from then on; a failed one puts it offline, with the reason,
/// and keeps what was known; the outcome of an action is told under the name of the action, and only a
/// number of the client changes what is known.
pub proof fn law_what_events_tell(before: LecooApp, event: WorkerEvent, after: LecooApp)
    requires
        LecooApp::took(before, event, after),
    ensures
        event matches WorkerEvent::Snapshot(Ok(snapshot)) ==> {
            &&& after.connection is Online
            &&& after.snapshot == snapshot
            &&& after.notice == before.notice
            &&& after.telemetry_id == before.telemetry_id
        },
        event matches WorkerEvent::Snapshot(Err(error)) ==> {
            &&& after.connection == ConnectionState::Offline(error)
            &&& after.snapshot == before.snapshot
            &&& after.notice matches Some(notice) && notice.kind is Error && notice.text@ == error@
            &&& after.telemetry_id == before.telemetry_id
        },
        event matches WorkerEvent::Action { label, result: Ok(outcome) } ==> {
            &&& after.connection == before.connection
            &&& after.snapshot == before.snapshot
            &&& after.notice matches Some(notice) && notice.kind is Success && notice.text@ == label@
                + "："@ + outcome.message@
            &&& outcome.telemetry_id is Some ==> after.telemetry_id == outcome.telemetry_id
            &&& outcome.telemetry_id is None ==> after.telemetry_id == before.telemetry_id
        },
        event matches WorkerEvent::Action { label, result: Err(error) } ==> {
            &&& after.connection == before.connection
            &&& after.snapshot == before.snapshot
            &&& after.notice matches Some(notice) && notice.kind is Error && notice.text@ == label@
                + "："@ + error@
            &&& after.telemetry_id == before.telemetry_id
        },
        !(event is Snapshot) ==> (after.cpu_pwm, after.gpu_pwm, after.keyboard_custom) == (
            before.cpu_pwm,
            before.gpu_pwm,
            before.keyboard_custom,
        ) && (after.led_brightness, after.charge_min, after.charge_max) == (
            before.led_brightness,
            before.charge_min,
            before.charge_max,
        ),
        after.launched_minimized == before.launched_minimized,
        after.main_window_handle == before.main_window_handle,
{
}

/// Taking several events in is taking them in one after the other: no event is passed over, and none
/// is taken twice.
pub proof fn law_events_are_taken_in_turn(states: Seq<LecooApp>, events: Seq<WorkerEvent>, i: int)
    requires
        LecooApp::took_all(states, events),
        0 <= i < events.len(),
    ensures
        states.len() == events.len() + 1,
        LecooApp::took(states[i], events[i], states[i + 1]),
        LecooApp::took_all(states.take(i + 1), events.take(i)),
{
    assert forall|k: int| 0 <= k < i implies LecooApp::took(
        states.take(i + 1)[k],
        #[trigger] events.take(i)[k],
        states.take(i + 1)[k + 1],
    ) by {
        assert(events.take(i)[k] == events[k]);
    }
}

/// A custom value of the settings moves its slider, and its slider only; anything else leaves the
/// slider where the user put it.
pub proof fn law_sliders_follow_custom_values(app: LecooApp, snapshot: Snapshot)
    ensures
        ({
            let after = app.absorbed(snapshot);
            &&& after.snapshot == snapshot
            &&& snapshot.settings is None ==> (
                after.cpu_pwm,
                after.gpu_pwm,
                after.keyboard_custom,
                after.led_brightness,
            ) == (app.cpu_pwm, app.gpu_pwm, app.keyboard_custom, app.led_brightness)
            &&& snapshot.settings matches Some(kept) ==> {
                &&& kept.fan_mode_cpu matches FanMode::Custom(duty) ==> after.cpu_pwm == duty
                &&& !(kept.fan_mode_cpu is Custom) ==> after.cpu_pwm == app.cpu_pwm
                &&& kept.fan_mode_gpu matches FanMode::Custom(duty) ==> after.gpu_pwm == duty
                &&& !(kept.fan_mode_gpu is Custom) ==> after.gpu_pwm == app.gpu_pwm
                &&& kept.keyboard_backlight matches KeyboardBacklightLevel::Custom(value)
                    ==> after.keyboard_custom == value
                &&& !(kept.keyboard_backlight is Custom) ==> after.keyboard_custom
                    == app.keyboard_custom
                &&& kept.led_mode matches PowerLedMode::Custom(value) ==> after.led_brightness
                    == value
                &&& !(kept.led_mode is Custom) ==> after.led_brightness == app.led_brightness
            }
        }),
{
}

/// The bounds of the machine become the thresholds of the sliders at the first snapshot that has them,
/// and nothing else touches these.
pub proof fn law_bounds_set_the_thresholds(app: LecooApp, snapshot: Snapshot)
    ensures
        ({
            let after = app.absorbed(snapshot);
            let first = !app.charge_range_initialized && (snapshot.capabilities matches Some(
                capabilities,
            ) && capabilities.charge.custom_range is Some);
            &&& first ==> {
                let bounds = snapshot.capabilities->Some_0.charge.custom_range->Some_0;
                &&& after.charge_min == bounds.0
                &&& after.charge_max == bounds.1
                &&& after.charge_range_initialized
            }
            &&& !first ==> (after.charge_min, after.charge_max, after.charge_range_initialized) == (
                app.charge_min,
                app.charge_max,
                app.charge_range_initialized,
            )
        }),
{
}

/// A snapshot leaves everything alone that it says nothing about.
pub proof fn law_a_snapshot_leaves_the_rest(app: LecooApp, snapshot: Snapshot)
    ensures
        ({
            let after = app.absorbed(snapshot);
            after == (LecooApp {
                snapshot: after.snapshot,
                cpu_pwm: after.cpu_pwm,
                gpu_pwm: after.gpu_pwm,
                keyboard_custom: after.keyboard_custom,
                led_brightness: after.led_brightness,
                charge_min: after.charge_min,
                charge_max: after.charge_max,
                charge_range_initialized: after.charge_range_initialized,
                ..app
            })
        }),
{
}

/// What is shown of the machine: what was read from it counts before what is remembered, and that
/// before the default.
pub proof fn law_what_was_read_counts_first(app: LecooApp, fan: FanIndex)
    ensures
        app.snapshot.power_profile matches Some(profile) ==> app.profile() == profile,
        app.snapshot.keyboard_backlight matches Some(level) ==> app.backlight() == level,
        app.snapshot.settings matches Some(settings) ==> {
            &&& app.snapshot.power_profile is None ==> app.profile() == settings.power_profile
            &&& app.snapshot.keyboard_backlight is None ==> app.backlight()
                == settings.keyboard_backlight
            &&& app.ring() == settings.led_mode
            &&& fan is Cpu ==> app.mode_of(fan) == settings.fan_mode_cpu
            &&& fan is Gpu ==> app.mode_of(fan) == settings.fan_mode_gpu
        },
        app.snapshot.settings is None ==> {
            &&& app.snapshot.power_profile is None ==> app.profile() is Default
            &&& app.snapshot.keyboard_backlight is None ==> app.backlight() is Off
            &&& app.ring() is Auto
            &&& app.mode_of(fan) is Auto
        },
        fan is Cpu ==> app.pwm_of(fan) == app.cpu_pwm,
        fan is Gpu ==> app.pwm_of(fan) == app.gpu_pwm,
{
}

/// The warning before a risky mode speaks of the protection where that is given up, and of the heat
/// where the fan would stand still.
pub proof fn law_the_warning_fits_the_mode(mode: FanMode)
    ensures
        mode is Turbo <==> warning(mode)
            == "Turbo 模式会绕过常规安全保护。仅在您了解散热风险时继续。"@,
        !(mode is Turbo) <==> warning(mode)
            == "将风扇 PWM 设为 0 可能导致过热。仅在您确定设备处于安全状态时继续。"@,
{
    reveal_strlit("Turbo 模式会绕过常规安全保护。仅在您了解散热风险时继续。");
    reveal_strlit("将风扇 PWM 设为 0 可能导致过热。仅在您确定设备处于安全状态时继续。");
    assert("Turbo 模式会绕过常规安全保护。仅在您了解散热风险时继续。"@[0]
        != "将风扇 PWM 设为 0 可能导致过热。仅在您确定设备处于安全状态时继续。"@[0]);
}

/// What a notice says is its text, and what kind of notice it is.
pub proof fn law_a_notice_says_its_text(notice: Option<Notice>, kind: NoticeKind, text: Seq<char>)
    ensures
        says(notice, kind, text) <==> notice is Some && notice->Some_0.kind == kind
            && notice->Some_0.text@ == text,
{
}

// ---- What holds of clicks and decisions ----

/// A window that has just been opened knows nothing and reads the state of the machine; its sliders
/// stand in the middle, its thresholds at 60 and 80 percent, and what it was told of the desktop is
/// kept.
pub proof fn law_a_new_window(
    launch_minimized: bool,
    startup_enabled: bool,
    minimize_to_tray: bool,
    handle: Option<isize>,
)
    ensures
        ({
            let app = LecooApp::opened(launch_minimized, startup_enabled, minimize_to_tray, handle);
            &&& app.snapshot == unknown()
            &&& app.connection is Connecting && app.page is Dashboard && app.tray is Pending
            &&& app.notice is None && app.confirmation is None && app.telemetry_id is None
            &&& app.refresh_in_flight && !app.action_in_flight
            &&& app.cpu_pwm == 128 && app.gpu_pwm == 128
            &&& app.keyboard_custom == 128 && app.led_brightness == 128
            &&& app.charge_min == 60 && app.charge_max == 80 && !app.charge_range_initialized
            &&& !app.allow_exit
            &&& app.launched_minimized == launch_minimized
            &&& app.startup_enabled == startup_enabled
            &&& app.minimize_to_tray == minimize_to_tray
            &&& app.main_window_handle == handle
        }),
{
}

/// A window that was started minimized is not lost: with an icon it is hidden once it has been
/// painted, and without one it is shown. The icon is made once.
pub proof fn law_a_minimized_window_is_not_lost(
    before: LecooApp,
    made: Result<(), String>,
    effects: Seq<WindowEffect>,
    after: LecooApp,
)
    requires
        LecooApp::iconed(before, made, effects, after),
    ensures
        !(before.tray is Pending) ==> after == before && effects.len() == 0,
        before.tray is Pending ==> {
            &&& made is Ok <==> after.tray is Ready
            &&& made matches Err(error) ==> after.tray == TrayStatus::Unavailable(error) && (
            after.notice matches Some(notice) && notice.kind is Error && notice.text@
                == "Windows 通知区域不可用："@ + error@)
            &&& made is Ok ==> after.notice == before.notice
            &&& !after.launched_minimized
            &&& after == (LecooApp {
                tray: after.tray,
                launched_minimized: after.launched_minimized,
                notice: after.notice,
                ..before
            })
            &&& !before.launched_minimized ==> effects.len() == 0
            &&& before.launched_minimized && made is Ok ==> effects == seq![
                WindowEffect::HideAfterStartup(before.main_window_handle),
            ]
            &&& before.launched_minimized && made is Err ==> effects.contains(
                WindowEffect::Visible(true),
            ) && effects.last() is Focus && effects == showing(before.main_window_handle)
        },
{
    if before.tray is Pending && before.launched_minimized && made is Err {
        let shown = showing(before.main_window_handle);
        assert(shown[shown.len() - 2] == WindowEffect::Visible(true));
    }
}

/// What is asked for in the notification area: the program may be left exactly once that was asked
/// for, and the window counts as minimized until it was shown. Nothing else changes, and nothing at all
/// without an icon.
pub proof fn law_what_the_notification_area_changes(app: LecooApp, actions: Seq<TrayAction>)
    ensures
        ({
            let after = app.after_tray(actions);
            &&& after == (LecooApp {
                launched_minimized: after.launched_minimized,
                allow_exit: after.allow_exit,
                ..app
            })
            &&& !(app.tray is Ready) ==> after == app
            &&& app.tray is Ready ==> {
                &&& after.allow_exit <==> app.allow_exit || (exists|i: int|
                    0 <= i < actions.len() && #[trigger] actions[i] == TrayAction::Exit)
                &&& after.launched_minimized <==> app.launched_minimized && (forall|i: int|
                    0 <= i < actions.len() ==> #[trigger] actions[i] != TrayAction::Show)
            }
        }),
{
    if actions.contains(TrayAction::Exit) {
        let i = actions.index_of(TrayAction::Exit);
        assert(actions[i] == TrayAction::Exit);
    }
    if actions.contains(TrayAction::Show) {
        let i = actions.index_of(TrayAction::Show);
        assert(actions[i] == TrayAction::Show);
    }
    if exists|i: int| 0 <= i < actions.len() && #[trigger] actions[i] == TrayAction::Exit {
        let i = choose|i: int| 0 <= i < actions.len() && #[trigger] actions[i] == TrayAction::Exit;
        assert(actions.contains(actions[i]));
    }
    if !(forall|i: int| 0 <= i < actions.len() ==> #[trigger] actions[i] != TrayAction::Show) {
        let i = choose|i: int|
            0 <= i < actions.len() && !(#[trigger] actions[i] != TrayAction::Show);
        assert(actions.contains(actions[i]));
    }
}

/// The wish to close the window is taken back, and the window hidden, exactly if the user wants it in
/// the notification area, there is an icon to come back by, and the program was not left.
pub proof fn law_closing_may_be_hiding(app: LecooApp, close_requested: bool)
    ensures
        close_requested && app.minimize_to_tray && app.tray is Ready && !app.allow_exit <==> app.closing(
            close_requested,
        ).len() > 0,
        app.closing(close_requested).len() > 0 ==> {
            &&& app.closing(close_requested)[0] == WindowEffect::CancelClose
            &&& app.closing(close_requested).skip(1) == hiding(app.main_window_handle)
        },
{
    assert((seq![WindowEffect::CancelClose] + hiding(app.main_window_handle)).skip(1) =~= hiding(
        app.main_window_handle,
    ));
}

/// A refresh is asked for exactly if the worker is idle, and is under way from then on; one that could
/// not be sent is not under way, and the window is offline.
pub proof fn law_refreshing(
    before: LecooApp,
    command: Option<WorkerCommand>,
    asked: LecooApp,
    delivered: bool,
    after: LecooApp,
)
    requires
        LecooApp::asked_to_refresh(before, command, asked),
        LecooApp::refreshing(asked, delivered, after),
    ensures
        command is Some <==> !before.refresh_in_flight && !before.action_in_flight,
        command matches Some(sent) ==> sent is Refresh,
        command is Some ==> asked.refresh_in_flight,
        command is None ==> asked == before,
        asked == (LecooApp { refresh_in_flight: asked.refresh_in_flight, ..before }),
        delivered ==> after == asked,
        !delivered ==> {
            &&& !after.refresh_in_flight
            &&& after.connection matches ConnectionState::Offline(reason) && reason@
                == "IPC 工作线程已停止"@
            &&& after.notice matches Some(notice) && notice.kind is Error && notice.text@
                == "无法启动后台通信。"@
            &&& after == (LecooApp {
                refresh_in_flight: false,
                connection: after.connection,
                notice: after.notice,
                ..asked
            })
        },
{
}

/// A request is passed on as it is exactly if the worker is idle. Once it is sent it is under way and
/// says so; one that could not be sent is not, and the window is offline.
pub proof fn law_acting(
    before: LecooApp,
    label: String,
    request: IpcRequest,
    refresh_after: bool,
    delivered: bool,
    after: LecooApp,
)
    requires
        LecooApp::acting(before, label@, delivered, after),
    ensures
        before.passed_on(label, request, refresh_after) is Some <==> !before.refresh_in_flight
            && !before.action_in_flight,
        before.passed_on(label, request, refresh_after) matches Some(command) ==> command == (
        WorkerCommand::Request { label, request, refresh_after }),
        delivered ==> {
            &&& after.action_in_flight
            &&& after.notice matches Some(notice) && notice.kind is Info && notice.text@ == label@
                + "：正在处理…"@
            &&& after == (LecooApp { action_in_flight: true, notice: after.notice, ..before })
        },
        !delivered ==> {
            &&& after.connection matches ConnectionState::Offline(reason) && reason@
                == "IPC 工作线程已停止"@
            &&& after.notice matches Some(notice) && notice.kind is Error && notice.text@
                == "无法向后台服务发送操作。"@
            &&& after == (LecooApp {
                connection: after.connection,
                notice: after.notice,
                ..before
            })
        },
{
}

/// A risky mode never reaches the worker unasked: the click sends nothing and opens a question, and
/// only the approval sends the request, which is to set just that fan to just that mode.
pub proof fn law_risky_modes_wait_for_approval(
    before: LecooApp,
    fan: FanIndex,
    mode: FanMode,
    command: Option<WorkerCommand>,
    asked: LecooApp,
    approved: bool,
    sent: Option<WorkerCommand>,
    after: LecooApp,
)
    requires
        mode is Turbo || mode == FanMode::Custom(0),
        LecooApp::chose(before, fan, mode, command, asked),
        LecooApp::decided(asked, approved, sent, after),
    ensures
        command is None,
        asked.confirmation matches Some(question) && {
            &&& question.title@ == "确认风扇设置"@
            &&& question.message@ == warning(mode)
            &&& question.label@ == "设置 "@ + fan_text(fan) + " 风扇"@
        },
        asked == (LecooApp { confirmation: asked.confirmation, ..before }),
        after.confirmation is None,
        sent is Some <==> approved && !before.refresh_in_flight && !before.action_in_flight,
        sent matches Some(given) ==> (given matches WorkerCommand::Request {
            label,
            request,
            refresh_after,
        } && request == (IpcRequest::SetFanMode { fan, mode }) && refresh_after && label@ == "设置 "@
            + fan_text(fan) + " 风扇"@),
        approved ==> after == (LecooApp { confirmation: None, ..before }),
        !approved ==> (after.notice matches Some(notice) && notice.kind is Info && notice.text@
            == "已取消操作。"@) && after == (LecooApp {
            confirmation: None,
            notice: after.notice,
            ..before
        }),
{
}

/// Any other mode is passed on at once, if the worker is idle, and opens no question.
pub proof fn law_safe_modes_are_passed_on(
    before: LecooApp,
    fan: FanIndex,
    mode: FanMode,
    command: Option<WorkerCommand>,
    after: LecooApp,
)
    requires
        !(mode is Turbo),
        mode != FanMode::Custom(0),
        LecooApp::chose(before, fan, mode, command, after),
    ensures
        after == before,
        command is Some <==> !before.refresh_in_flight && !before.action_in_flight,
        command matches Some(given) ==> (given matches WorkerCommand::Request {
            label,
            request,
            refresh_after,
        } && request == (IpcRequest::SetFanMode { fan, mode }) && refresh_after && label@ == "设置 "@
            + fan_text(fan) + " 风扇"@),
{
}

/// An approved question is sent as it was put, whatever it was about.
pub proof fn law_approval_sends_the_question(
    before: LecooApp,
    question: Confirmation,
    sent: Option<WorkerCommand>,
    after: LecooApp,
)
    requires
        before.confirmation == Some(question),
        LecooApp::decided(before, true, sent, after),
    ensures
        sent is Some <==> !before.refresh_in_flight && !before.action_in_flight,
        sent matches Some(given) ==> given == (WorkerCommand::Request {
            label: question.label,
            request: question.request,
            refresh_after: question.refresh_after,
        }),
{
}

/// Events change nothing but what they tell of: a snapshot what it is taken in for, the outcome of an
/// action the notice and the number of the client, and each of them what is under way.
pub proof fn law_events_change_nothing_else(before: LecooApp, event: WorkerEvent, after: LecooApp)
    requires
        LecooApp::took(before, event, after),
    ensures
        event matches WorkerEvent::Snapshot(Ok(snapshot)) ==> after == (LecooApp {
            refresh_in_flight: after.refresh_in_flight,
            connection: after.connection,
            ..before.absorbed(snapshot)
        }),
        event matches WorkerEvent::Snapshot(Err(_)) ==> after == (LecooApp {
            refresh_in_flight: after.refresh_in_flight,
            connection: after.connection,
            notice: after.notice,
            ..before
        }),
        event is Action ==> after == (LecooApp {
            action_in_flight: after.action_in_flight,
            notice: after.notice,
            telemetry_id: after.telemetry_id,
            ..before
        }),
{
}

} // verus!
