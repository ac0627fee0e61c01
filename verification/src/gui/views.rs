//! What the pages of the control centre show and offer, and what a click on them leads to.
//!
//! A page is described by plain values: texts, what is selected, what is enabled. Where the worker
//! is busy nothing that would give it work is enabled.
use vstd::prelude::*;

use super::app::{says, ConnectionState, LecooApp, NoticeKind, Page, TrayStatus};
use super::labels::{
    append_charge_option, charge_intent_label, charge_text, fan_mode_label, fan_mode_text, fan_name,
    fan_text, keyboard_backlight_label, keyboard_text, led_effects, led_mode_label, led_text,
    named, offers, options_of, percent_range, percents, power_profile_label, power_profile_text,
    with_option, effects,
};
use super::worker::WorkerCommand;
use crate::text::{around, blank, decimal, decimal_text, hex, hex_text, is_blank, joined};
use crate::types::{
    BreathConfig, Capabilities, ChargeCaps, ChargeIntent, ChargeRange, ChargeStatus, DaemonCommand,
    FanCaps, FanIndex, FanMode, IpcRequest, KbdCaps, KeyboardBacklightLevel, LedCaps, PowerLedMode,
    PowerProfile,
};

verus! {

/// A colour: red, green and blue.
pub type Rgb = (u8, u8, u8);

/// The colour of what waits or should be noted.
pub const AMBER: Rgb = (220, 170, 40);

/// The colour of failures and dangers.
pub const RED: Rgb = (215, 80, 80);

// ---- Around the pages ----

/// The badge of the connection.
pub open spec fn badge(connection: ConnectionState) -> (Seq<char>, Rgb) {
    match connection {
        ConnectionState::Connecting => ("正在连接"@, (220, 170, 40)),
        ConnectionState::Online => ("后台服务已连接"@, (70, 180, 110)),
        ConnectionState::Offline(_) => ("后台服务未连接"@, (210, 80, 80)),
    }
}

/// The badge of the connection: its text and its colour.
pub fn connection_badge(app: &LecooApp) -> (shown: (String, Rgb))
    ensures
        (shown.0@, shown.1) == badge(app.connection),
{
    match &app.connection {
        ConnectionState::Connecting => ("正在连接".to_owned(), (220, 170, 40)),
        ConnectionState::Online => ("后台服务已连接".to_owned(), (70, 180, 110)),
        ConnectionState::Offline(_) => ("后台服务未连接".to_owned(), (210, 80, 80)),
    }
}

/// The colour of a notice.
pub open spec fn notice_rgb(kind: NoticeKind) -> Rgb {
    match kind {
        NoticeKind::Info => (80u8, 145u8, 210u8),
        NoticeKind::Success => (70u8, 175u8, 105u8),
        NoticeKind::Error => (215u8, 80u8, 80u8),
    }
}

/// The colour of a notice.
pub fn notice_color(kind: NoticeKind) -> (color: Rgb)
    ensures
        color == notice_rgb(kind),
{
    match kind {
        NoticeKind::Info => (80, 145, 210),
        NoticeKind::Success => (70, 175, 105),
        NoticeKind::Error => (215, 80, 80),
    }
}

/// Takes the notice away.
pub fn dismiss_notice(app: &mut LecooApp)
    ensures
        *final(app) == (LecooApp { notice: None, ..*old(app) }),
{
    app.notice = None;
}

/// The name of a page.
pub open spec fn page_text(page: Page) -> Seq<char> {
    match page {
        Page::Dashboard => "概览"@,
        Page::Thermal => "散热"@,
        Page::PowerAndBattery => "性能与电池"@,
        Page::Lighting => "灯光"@,
        Page::Settings => "设置"@,
    }
}

/// The pages in the order in which they are offered.
pub open spec fn page_order() -> Seq<Page> {
    seq![Page::Dashboard, Page::Thermal, Page::PowerAndBattery, Page::Lighting, Page::Settings]
}

/// The pages that are offered, with their names.
pub fn pages() -> (list: [(Page, &'static str); 5])
    ensures
        list@.len() == page_order().len(),
        forall|i: int|
            0 <= i < list@.len() ==> (#[trigger] list@[i]).0 == page_order()[i] && list@[i].1@
                == page_text(page_order()[i]),
{
    [
        (Page::Dashboard, "概览"),
        (Page::Thermal, "散热"),
        (Page::PowerAndBattery, "性能与电池"),
        (Page::Lighting, "灯光"),
        (Page::Settings, "设置"),
    ]
}

/// Goes to a page.
pub fn open_page(app: &mut LecooApp, page: Page)
    ensures
        *final(app) == (LecooApp { page, ..*old(app) }),
{
    app.page = page;
}

// ---- The dashboard ----

/// A value with its unit, or a dash where there is none.
pub open spec fn reading(value: Option<int>, unit: Seq<char>) -> Seq<char> {
    match value {
        Some(value) => decimal(value as nat) + unit,
        None => "—"@,
    }
}

/// A value with its unit, or a dash where there is none.
fn reading_text(value: Option<u16>, unit: &str) -> (text: String)
    ensures
        text@ == reading(
            match value {
                Some(value) => Some(value as int),
                None => None,
            },
            unit@,
        ),
{
    match value {
        Some(value) => joined(decimal_text(value as u64).as_str(), unit),
        None => "—".to_owned(),
    }
}

/// How long ago the state was read, at the time `now`: whole seconds, none before it was read.
pub open spec fn synced_text(updated_at: Option<u64>, now: u64) -> Seq<char> {
    match updated_at {
        Some(time) => "最近同步："@ + decimal(
            if now >= time {
                ((now - time) / 1000) as nat
            } else {
                0
            },
        ) + " 秒前"@,
        None => "最近同步：等待后台服务"@,
    }
}

/// The thresholds of a charge status.
pub open spec fn thresholds_text(thresholds: Option<(u8, u8)>) -> Seq<char> {
    match thresholds {
        Some((min, max)) => " · 阈值 "@ + percents(min, max),
        None => ""@,
    }
}

/// The summary of a charge status.
pub open spec fn charge_summary(status: ChargeStatus) -> Seq<char> {
    "目标："@ + charge_text(status.desired) + " · 生效："@ + charge_text(status.effective)
        + thresholds_text(status.thresholds)
}

/// Why a charge intent is not in effect yet.
pub open spec fn pending_text(pending: Option<String>) -> Option<Seq<char>> {
    match pending {
        Some(reason) => Some("等待应用："@ + reason@),
        None => None,
    }
}

/// A text, where there is one.
pub open spec fn shown(text: Option<String>) -> Option<Seq<char>> {
    match text {
        Some(text) => Some(text@),
        None => None,
    }
}

/// What the dashboard shows.
pub struct Dashboard {
    pub synced: String,
    /// Why the daemon cannot be reached.
    pub offline: Option<String>,
    pub cpu_temperature: String,
    pub system_temperature: String,
    pub cpu_fan: String,
    pub battery: String,
    pub board: String,
    pub daemon_version: String,
    pub chip: String,
    pub power_profile: &'static str,
    pub charge: Option<String>,
    pub charge_pending: Option<String>,
}

impl Dashboard {
    /// This dashboard shows the state `app` at the time `now`.
    pub open spec fn shows(self, app: LecooApp, now: u64) -> bool {
        let known = app.snapshot;
        &&& self.synced@ == synced_text(known.updated_at, now)
        &&& shown(self.offline) == match app.connection {
            ConnectionState::Offline(error) => Some(error@),
            _ => None,
        }
        &&& self.cpu_temperature@ == reading(
            match known.temperatures {
                Some(value) => Some(value.cpu_c as int),
                None => None,
            },
            " °C"@,
        )
        &&& self.system_temperature@ == reading(
            match known.temperatures {
                Some(value) => Some(value.system_c as int),
                None => None,
            },
            " °C"@,
        )
        &&& self.cpu_fan@ == reading(
            match known.fans {
                Some(value) => Some(value.cpu_rpm as int),
                None => None,
            },
            " RPM"@,
        )
        &&& self.battery@ == reading(
            match known.charge {
                Some(value) => Some(value.soc as int),
                None => None,
            },
            "%"@,
        )
        &&& self.board@ == match known.capabilities {
            Some(value) => value.board@,
            None => "等待连接"@,
        }
        &&& self.daemon_version@ == match known.system {
            Some(value) => value.daemon_version@,
            None => match known.capabilities {
                Some(value) => value.daemon_version@,
                None => "—"@,
            },
        }
        &&& self.chip@ == match known.system {
            Some(value) => value.chip@,
            None => "—"@,
        }
        &&& self.power_profile@ == power_profile_text(app.profile())
        &&& shown(self.charge) == match known.charge {
            Some(status) => Some(charge_summary(status)),
            None => None,
        }
        &&& shown(self.charge_pending) == match known.charge {
            Some(status) => pending_text(status.pending),
            None => None,
        }
    }
}

fn synced(updated_at: Option<u64>, now: u64) -> (text: String)
    ensures
        text@ == synced_text(updated_at, now),
{
    match updated_at {
        Some(time) => {
            let seconds: u64 = if now >= time {
                (now - time) / 1000
            } else {
                0
            };
            around("最近同步：", decimal_text(seconds), " 秒前")
        },
        None => "最近同步：等待后台服务".to_owned(),
    }
}

fn summary(status: &ChargeStatus) -> (text: String)
    ensures
        text@ == charge_summary(*status),
{
    let mut text = joined("目标：", charge_intent_label(status.desired).as_str());
    text.append(" · 生效：");
    text.append(charge_intent_label(status.effective).as_str());
    match status.thresholds {
        Some((min, max)) => {
            let limits = joined(" · 阈值 ", percent_range(min, max).as_str());
            text.append(limits.as_str());
        },
        None => {
            text.append("");
        },
    }
    text
}

fn pending_line(status: &ChargeStatus) -> (line: Option<String>)
    ensures
        shown(line) == pending_text(status.pending),
{
    match &status.pending {
        Some(reason) => Some(joined("等待应用：", reason.as_str())),
        None => None,
    }
}

/// What the dashboard shows at the time `now`.
pub fn dashboard(app: &LecooApp, now: u64) -> (page: Dashboard)
    ensures
        page.shows(*app, now),
{
    let known = &app.snapshot;
    let (cpu_c, system_c): (Option<u16>, Option<u16>) = match known.temperatures {
        Some(value) => (Some(value.cpu_c as u16), Some(value.system_c as u16)),
        None => (None, None),
    };
    let cpu_rpm: Option<u16> = match known.fans {
        Some(value) => Some(value.cpu_rpm),
        None => None,
    };
    let soc: Option<u16> = match &known.charge {
        Some(value) => Some(value.soc as u16),
        None => None,
    };
    let (charge, charge_pending) = match &known.charge {
        Some(status) => (Some(summary(status)), pending_line(status)),
        None => (None, None),
    };
    Dashboard {
        synced: synced(known.updated_at, now),
        offline: match &app.connection {
            ConnectionState::Offline(error) => Some(error.clone()),
            _ => None,
        },
        cpu_temperature: reading_text(cpu_c, " °C"),
        system_temperature: reading_text(system_c, " °C"),
        cpu_fan: reading_text(cpu_rpm, " RPM"),
        battery: reading_text(soc, "%"),
        board: match &known.capabilities {
            Some(value) => value.board.clone(),
            None => "等待连接".to_owned(),
        },
        daemon_version: match &known.system {
            Some(value) => value.daemon_version.clone(),
            None => match &known.capabilities {
                Some(value) => value.daemon_version.clone(),
                None => "—".to_owned(),
            },
        },
        chip: match &known.system {
            Some(value) => value.chip.clone(),
            None => "—".to_owned(),
        },
        power_profile: power_profile_label(app.current_power_profile()),
        charge,
        charge_pending,
    }
}

// ---- The fans ----

/// What the page of the fans shows.
#[derive(Clone, Copy, PartialEq, Eq, Debug, Structural)]
pub enum Thermal {
    /// The capabilities of the machine are not known yet.
    Waiting,
    NoFans,
    /// A card for each fan, in this many columns.
    Columns(usize),
}

/// What the page of the fans shows.
pub open spec fn thermal_page(app: LecooApp) -> Thermal {
    match app.snapshot.capabilities {
        None => Thermal::Waiting,
        Some(capabilities) => if capabilities.fans@.len() == 0 {
            Thermal::NoFans
        } else {
            Thermal::Columns(
                if capabilities.fans@.len() < 2 {
                    1
                } else {
                    2
                },
            )
        },
    }
}

/// What the page of the fans shows: the cards stand in as many columns as there are fans, but no
/// more than two.
pub fn thermal(app: &LecooApp) -> (page: Thermal)
    ensures
        page == thermal_page(*app),
{
    match &app.snapshot.capabilities {
        None => Thermal::Waiting,
        Some(capabilities) => {
            if capabilities.fans.is_empty() {
                Thermal::NoFans
            } else if capabilities.fans.len() < 2 {
                Thermal::Columns(1)
            } else {
                Thermal::Columns(2)
            }
        },
    }
}

/// The column of the card at `position`: the columns are filled in turn.
pub fn card_column(position: usize, columns: usize) -> (column: usize)
    requires
        columns > 0,
    ensures
        column == position % columns,
{
    position % columns
}

/// What the card of a fan shows.
pub struct FanCard {
    pub heading: String,
    pub rpm: String,
    pub current: String,
    pub mode: FanMode,
    /// Where the slider stands; it goes from zero to `duty_max`.
    pub pwm: u8,
    pub duty_max: u8,
    pub slider: String,
    pub enabled: bool,
}

impl FanCard {
    /// This card shows the fan `fan` in the state `app`.
    pub open spec fn shows(self, app: LecooApp, fan: FanCaps) -> bool {
        &&& self.heading@ == fan_text(fan.index) + " 风扇"@
        &&& self.rpm@ == reading(
            match app.snapshot.fans {
                Some(value) => Some(
                    match fan.index {
                        FanIndex::Cpu => value.cpu_rpm as int,
                        FanIndex::Gpu => value.gpu_rpm as int,
                    },
                ),
                None => None,
            },
            " RPM"@,
        )
        &&& self.current@ == "当前："@ + fan_mode_text(app.mode_of(fan.index))
        &&& self.mode == app.mode_of(fan.index)
        &&& self.pwm == if app.pwm_of(fan.index) < fan.duty_max {
            app.pwm_of(fan.index)
        } else {
            fan.duty_max
        }
        &&& self.duty_max == fan.duty_max
        &&& self.slider@ == "自定义 PWM（最大 "@ + decimal(fan.duty_max as nat) + "）"@
        &&& self.enabled == !app.busy()
    }
}

/// What the card of a fan shows. The slider stands no higher than the fan may be driven.
pub fn fan_card(app: &LecooApp, fan: FanCaps) -> (card: FanCard)
    ensures
        card.shows(*app, fan),
{
    let mode = app.fan_mode(fan.index);
    let rpm: Option<u16> = match app.snapshot.fans {
        Some(value) => Some(
            match fan.index {
                FanIndex::Cpu => value.cpu_rpm,
                FanIndex::Gpu => value.gpu_rpm,
            },
        ),
        None => None,
    };
    let chosen: u8 = app.fan_pwm(fan.index);
    FanCard {
        heading: joined(fan_name(fan.index), " 风扇"),
        rpm: reading_text(rpm, " RPM"),
        current: joined("当前：", fan_mode_label(mode).as_str()),
        mode,
        pwm: if chosen < fan.duty_max {
            chosen
        } else {
            fan.duty_max
        },
        duty_max: fan.duty_max,
        slider: around("自定义 PWM（最大 ", decimal_text(fan.duty_max as u64), "）"),
        enabled: !app.is_busy(),
    }
}

/// `command` is what is to be sent, and `after` is the state, once the user has used the card of a
/// fan.
pub open spec fn card_used(
    before: LecooApp,
    fan: FanCaps,
    pwm: u8,
    requested: Option<FanMode>,
    command: Option<WorkerCommand>,
    after: LecooApp,
) -> bool {
    let moved = match fan.index {
        FanIndex::Cpu => LecooApp { cpu_pwm: pwm, ..before },
        FanIndex::Gpu => LecooApp { gpu_pwm: pwm, ..before },
    };
    match requested {
        None => command is None && after == moved,
        Some(mode) => {
            &&& after == (LecooApp { confirmation: after.confirmation, ..moved })
            &&& if super::labels::is_risky(mode) {
                command is None && (after.confirmation matches Some(asked) && {
                    &&& asked.title@ == "确认风扇设置"@
                    &&& asked.message@ == super::app::warning(mode)
                    &&& asked.label@ == "设置 "@ + fan_text(fan.index) + " 风扇"@
                    &&& asked.request == (IpcRequest::SetFanMode { fan: fan.index, mode })
                    &&& asked.refresh_after
                })
            } else {
                after.confirmation == before.confirmation && sends(
                    command,
                    moved,
                    "设置 "@ + fan_text(fan.index) + " 风扇"@,
                    IpcRequest::SetFanMode { fan: fan.index, mode },
                    true,
                )
            }
        },
    }
}

/// Takes in what the user did on the card of a fan: where the slider was left, and the mode that was
/// clicked, if any. The command that is returned has to be sent.
pub fn fan_card_used(
    app: &mut LecooApp,
    fan: FanCaps,
    pwm: u8,
    requested: Option<FanMode>,
) -> (command: Option<WorkerCommand>)
    ensures
        card_used(*old(app), fan, pwm, requested, command, *final(app)),
{
    app.set_fan_pwm(fan.index, pwm);
    match requested {
        Some(mode) => app.choose_fan_mode(fan.index, mode),
        None => None,
    }
}

/// `command` passes `request` on under the name `label`, unless the worker is busy in `app`.
pub open spec fn sends(
    command: Option<WorkerCommand>,
    app: LecooApp,
    label: Seq<char>,
    request: IpcRequest,
    refresh_after: bool,
) -> bool {
    if app.busy() {
        command is None
    } else {
        command matches Some(
            WorkerCommand::Request { label: title, request: sent, refresh_after: refresh },
        ) && title@ == label && sent == request && refresh == refresh_after
    }
}

// ---- Power profiles ----

/// One thing that can be chosen.
pub struct Choice<T> {
    pub title: String,
    pub selected: bool,
    pub value: T,
}

/// `choices` offer `profiles`, of which `current` is selected.
pub open spec fn offer_profiles(
    choices: Seq<Choice<PowerProfile>>,
    profiles: Seq<PowerProfile>,
    current: PowerProfile,
) -> bool {
    &&& choices.len() == profiles.len()
    &&& forall|i: int|
        0 <= i < choices.len() ==> {
            let profile = profiles[i];
            (#[trigger] choices[i]).value == profile && choices[i].selected == (profile == current)
                && choices[i].title@ == power_profile_text(profile)
        }
}

/// The power profiles that can be chosen; none where the machine has none.
pub fn power_choices(app: &LecooApp, capabilities: &Capabilities) -> (choices: Vec<
    Choice<PowerProfile>,
>)
    ensures
        offer_profiles(choices@, capabilities.power_profiles@, app.profile()),
{
    let current = app.current_power_profile();
    let mut choices: Vec<Choice<PowerProfile>> = Vec::new();
    let mut i: usize = 0;
    while i < capabilities.power_profiles.len()
        invariant
            i <= capabilities.power_profiles@.len(),
            current == app.profile(),
            choices@.len() == i,
            forall|j: int|
                0 <= j < i ==> {
                    let profile = capabilities.power_profiles@[j];
                    (#[trigger] choices@[j]).value == profile && choices@[j].selected == (profile
                        == app.profile()) && choices@[j].title@ == power_profile_text(profile)
                },
        decreases capabilities.power_profiles.len() - i,
    {
        let profile = capabilities.power_profiles[i];
        choices.push(
            Choice {
                title: power_profile_label(profile).to_owned(),
                selected: profile == current,
                value: profile,
            },
        );
        i = i + 1;
    }
    choices
}

/// `command` is what is to be sent once the user has used the power profiles.
pub open spec fn profile_used(
    app: LecooApp,
    requested: Option<PowerProfile>,
    command: Option<WorkerCommand>,
) -> bool {
    match requested {
        Some(profile) => sends(
            command,
            app,
            "更新性能模式"@,
            IpcRequest::SetPowerProfile(profile),
            true,
        ),
        None => command is None,
    }
}

/// Takes in the power profile that was clicked, if any. The command that is returned has to be sent.
pub fn power_profile_used(app: &LecooApp, requested: Option<PowerProfile>) -> (command: Option<
    WorkerCommand,
>)
    ensures
        profile_used(*app, requested, command),
{
    match requested {
        Some(profile) => app.submit(
            "更新性能模式".to_owned(),
            IpcRequest::SetPowerProfile(profile),
            true,
        ),
        None => None,
    }
}

// ---- The battery ----

/// The options for the battery: the presets of the machine, then those that every machine of its
/// kind has, none of them twice.
pub open spec fn battery_options(capabilities: ChargeCaps) -> Seq<(Seq<char>, ChargeIntent)> {
    let full = with_option(options_of(capabilities.presets@), "完全充电"@, ChargeIntent::Full);
    let preserved = if capabilities.preserve_fixed is Some {
        with_option(full, "固件电池保护"@, ChargeIntent::Preserve(None))
    } else {
        full
    };
    if capabilities.freeze_soc is Some {
        with_option(preserved, "冻结充电"@, ChargeIntent::Freeze)
    } else {
        preserved
    }
}

/// The title of an option: its name, or that of its intent where it has none.
pub open spec fn option_title(option: (Seq<char>, ChargeIntent)) -> Seq<char> {
    if is_blank(option.0) {
        charge_text(option.1)
    } else {
        option.0
    }
}

/// The intent that is wanted of the battery, where it is known.
pub open spec fn desired(app: LecooApp) -> Option<ChargeIntent> {
    match app.snapshot.charge {
        Some(status) => Some(status.desired),
        None => None,
    }
}

fn copied_options(presets: &Vec<(String, ChargeIntent)>) -> (options: Vec<(String, ChargeIntent)>)
    ensures
        options_of(options@) == options_of(presets@),
{
    let mut options: Vec<(String, ChargeIntent)> = Vec::new();
    let mut i: usize = 0;
    while i < presets.len()
        invariant
            i <= presets@.len(),
            options@.len() == i,
            forall|j: int| 0 <= j < i ==> named(#[trigger] options@[j]) == named(presets@[j]),
        decreases presets.len() - i,
    {
        options.push((presets[i].0.clone(), presets[i].1));
        i = i + 1;
    }
    assert(options_of(options@) =~= options_of(presets@));
    options
}

/// `choices` offer `options`, of which the one with the intent `wanted` is selected.
pub open spec fn offer_options(
    choices: Seq<Choice<ChargeIntent>>,
    options: Seq<(Seq<char>, ChargeIntent)>,
    wanted: Option<ChargeIntent>,
) -> bool {
    &&& choices.len() == options.len()
    &&& forall|i: int|
        0 <= i < choices.len() ==> {
            let option = options[i];
            (#[trigger] choices[i]).title@ == option_title(option) && choices[i].value == option.1
                && choices[i].selected == (wanted == Some(option.1))
        }
}

/// The options for the battery as they are offered.
pub fn battery_choices(app: &LecooApp, capabilities: &ChargeCaps) -> (choices: Vec<
    Choice<ChargeIntent>,
>)
    ensures
        offer_options(choices@, battery_options(*capabilities), desired(*app)),
{
    let mut options = copied_options(&capabilities.presets);
    append_charge_option(&mut options, "完全充电", ChargeIntent::Full);
    if capabilities.preserve_fixed.is_some() {
        append_charge_option(&mut options, "固件电池保护", ChargeIntent::Preserve(None));
    }
    if capabilities.freeze_soc.is_some() {
        append_charge_option(&mut options, "冻结充电", ChargeIntent::Freeze);
    }
    let wanted: Option<ChargeIntent> = match &app.snapshot.charge {
        Some(status) => Some(status.desired),
        None => None,
    };
    let ghost offered = options_of(options@);
    assert(offered == battery_options(*capabilities));
    let mut choices: Vec<Choice<ChargeIntent>> = Vec::new();
    let mut i: usize = 0;
    while i < options.len()
        invariant
            i <= options@.len(),
            offered == options_of(options@),
            wanted == desired(*app),
            choices@.len() == i,
            forall|j: int|
                0 <= j < i ==> (#[trigger] choices@[j]).title@ == option_title(offered[j])
                    && choices@[j].value == offered[j].1 && choices@[j].selected == (desired(*app)
                    == Some(offered[j].1)),
        decreases options.len() - i,
    {
        let intent = options[i].1;
        assert(offered[i as int] == (options@[i as int].0@, intent));
        let title = if blank(options[i].0.as_str()) {
            charge_intent_label(intent)
        } else {
            options[i].0.clone()
        };
        let selected = match wanted {
            Some(known) => known == intent,
            None => false,
        };
        choices.push(Choice { title, selected, value: intent });
        i = i + 1;
    }
    choices
}

/// The lines about the state of the battery.
pub struct BatteryLines {
    pub soc: String,
    pub desired: String,
    pub effective: String,
    pub thresholds: Option<String>,
    pub pending: Option<String>,
}

/// `lines` describe `status`.
pub open spec fn describes(lines: BatteryLines, status: ChargeStatus) -> bool {
    &&& lines.soc@ == "当前电量："@ + decimal(status.soc as nat) + "%"@
    &&& lines.desired@ == "目标策略："@ + charge_text(status.desired)
    &&& lines.effective@ == "当前生效："@ + charge_text(status.effective)
    &&& shown(lines.thresholds) == match status.thresholds {
        Some((min, max)) => Some("当前阈值："@ + percents(min, max)),
        None => None,
    }
    &&& shown(lines.pending) == pending_text(status.pending)
}

/// The lines about the state of the battery; none while it is not known.
pub fn battery_lines(app: &LecooApp) -> (lines: Option<BatteryLines>)
    ensures
        match app.snapshot.charge {
            Some(status) => lines matches Some(shown) && describes(shown, status),
            None => lines is None,
        },
{
    match &app.snapshot.charge {
        Some(status) => Some(
            BatteryLines {
                soc: around("当前电量：", decimal_text(status.soc as u64), "%"),
                desired: joined("目标策略：", charge_intent_label(status.desired).as_str()),
                effective: joined("当前生效：", charge_intent_label(status.effective).as_str()),
                thresholds: match status.thresholds {
                    Some((min, max)) => Some(
                        joined("当前阈值：", percent_range(min, max).as_str()),
                    ),
                    None => None,
                },
                pending: pending_line(status),
            },
        ),
        None => None,
    }
}

/// A value, or the nearest one within bounds.
pub open spec fn clamped(value: u8, low: u8, high: u8) -> u8 {
    if value < low {
        low
    } else if value > high {
        high
    } else {
        value
    }
}

fn clamp(value: u8, low: u8, high: u8) -> (inside: u8)
    requires
        low <= high,
    ensures
        inside == clamped(value, low, high),
        low <= inside <= high,
{
    if value < low {
        low
    } else if value > high {
        high
    } else {
        value
    }
}

/// The sliders of the thresholds that the user may choose.
pub struct RangeSliders {
    pub label: String,
    pub min: u8,
    pub max: u8,
}

impl RangeSliders {
    /// The sliders stand as the state `app` has them, within the bounds of the machine.
    pub open spec fn stand(self, app: LecooApp, bound_min: u8, bound_max: u8) -> bool {
        &&& self.label@ == "自定义阈值（允许范围 "@ + percents(bound_min, bound_max) + "）"@
        &&& self.min == clamped(app.charge_min, bound_min, bound_max)
        &&& self.max == clamped(app.charge_max, self.min, bound_max)
    }
}

/// Where the sliders of the thresholds stand, within the bounds of the machine and one not above the
/// other.
pub fn range_sliders(app: &LecooApp, bound_min: u8, bound_max: u8) -> (sliders: RangeSliders)
    requires
        bound_min <= bound_max,
    ensures
        sliders.stand(*app, bound_min, bound_max),
        bound_min <= sliders.min <= sliders.max <= bound_max,
{
    let min = clamp(app.charge_min, bound_min, bound_max);
    let max = clamp(app.charge_max, min, bound_max);
    RangeSliders {
        label: around("自定义阈值（允许范围 ", percent_range(bound_min, bound_max), "）"),
        min,
        max,
    }
}

/// `command` is what is to be sent, and `after` is the state, once the user has used the options and
/// the sliders of the battery.
pub open spec fn charging_used(
    before: LecooApp,
    clicked: Option<ChargeIntent>,
    sliders: Option<(u8, u8)>,
    apply_sliders: bool,
    command: Option<WorkerCommand>,
    after: LecooApp,
) -> bool {
    let moved = match sliders {
        Some((min, max)) => LecooApp { charge_min: min, charge_max: max, ..before },
        None => before,
    };
    let intent = match sliders {
        Some((min, max)) => if apply_sliders {
            Some(ChargeIntent::Preserve(Some(ChargeRange { min, max })))
        } else {
            clicked
        },
        None => clicked,
    };
    &&& after == moved
    &&& match intent {
        Some(intent) => sends(
            command,
            moved,
            "更新电池保护"@,
            IpcRequest::SetChargeIntent(intent),
            true,
        ),
        None => command is None,
    }
}

/// Takes in what the user did with the battery: the option that was clicked, if any; where the
/// sliders were left, where there are sliders; and whether they were applied, which then counts. The
/// command that is returned has to be sent.
pub fn battery_used(
    app: &mut LecooApp,
    clicked: Option<ChargeIntent>,
    sliders: Option<(u8, u8)>,
    apply_sliders: bool,
) -> (command: Option<WorkerCommand>)
    ensures
        charging_used(*old(app), clicked, sliders, apply_sliders, command, *final(app)),
{
    let mut requested = clicked;
    if let Some((min, max)) = sliders {
        app.charge_min = min;
        app.charge_max = max;
        if apply_sliders {
            requested = Some(ChargeIntent::Preserve(Some(ChargeRange { min, max })));
        }
    }
    match requested {
        Some(intent) => app.submit(
            "更新电池保护".to_owned(),
            IpcRequest::SetChargeIntent(intent),
            true,
        ),
        None => None,
    }
}

// ---- The keyboard ----

/// Whether the keyboard backlight can be controlled at all.
pub open spec fn has_backlight(keyboard: KbdCaps) -> bool {
    keyboard.on_off || keyboard.levels || keyboard.custom
}

/// The levels that are offered for the keyboard backlight, besides a custom one.
pub open spec fn keyboard_levels(keyboard: KbdCaps) -> Seq<KeyboardBacklightLevel> {
    (if keyboard.on_off {
        seq![KeyboardBacklightLevel::Off]
    } else {
        Seq::empty()
    }) + (if keyboard.levels {
        seq![
            KeyboardBacklightLevel::Low,
            KeyboardBacklightLevel::Medium,
            KeyboardBacklightLevel::High,
        ]
    } else {
        Seq::empty()
    })
}

/// What is shown of the keyboard.
pub struct KeyboardPanel {
    pub current: String,
    pub choices: Vec<Choice<KeyboardBacklightLevel>>,
    /// Where the slider stands, if there is one.
    pub custom: Option<u8>,
    pub enabled: bool,
}

/// `choices` offer `levels`, of which `current` is selected.
pub open spec fn offer_levels(
    choices: Seq<Choice<KeyboardBacklightLevel>>,
    levels: Seq<KeyboardBacklightLevel>,
    current: KeyboardBacklightLevel,
) -> bool {
    &&& choices.len() == levels.len()
    &&& forall|i: int|
        0 <= i < choices.len() ==> (#[trigger] choices[i]).value == levels[i] && choices[i].title@
            == keyboard_text(levels[i]) && choices[i].selected == (current == levels[i])
}

impl KeyboardPanel {
    /// This panel shows the keyboard in the state `app`.
    pub open spec fn shows(self, app: LecooApp, keyboard: KbdCaps) -> bool {
        &&& self.current@ == "当前："@ + keyboard_text(app.backlight())
        &&& offer_levels(self.choices@, keyboard_levels(keyboard), app.backlight())
        &&& self.custom == if keyboard.custom {
            Some(app.keyboard_custom)
        } else {
            None
        }
        &&& self.enabled == !app.busy()
    }
}

fn level_choice(level: KeyboardBacklightLevel, current: KeyboardBacklightLevel) -> (choice: Choice<
    KeyboardBacklightLevel,
>)
    ensures
        choice.value == level,
        choice.title@ == keyboard_text(level),
        choice.selected == (current == level),
{
    Choice {
        title: keyboard_backlight_label(level),
        selected: current == level,
        value: level,
    }
}

/// What is shown of the keyboard; nothing where its backlight cannot be controlled.
pub fn keyboard_panel(app: &LecooApp, keyboard: &KbdCaps) -> (panel: Option<KeyboardPanel>)
    ensures
        panel is Some <==> has_backlight(*keyboard),
        panel matches Some(page) ==> page.shows(*app, *keyboard),
{
    if !(keyboard.on_off || keyboard.levels || keyboard.custom) {
        return None;
    }
    let current = app.current_keyboard_backlight();
    let mut choices: Vec<Choice<KeyboardBacklightLevel>> = Vec::new();
    if keyboard.on_off {
        choices.push(level_choice(KeyboardBacklightLevel::Off, current));
    }
    if keyboard.levels {
        choices.push(level_choice(KeyboardBacklightLevel::Low, current));
        choices.push(level_choice(KeyboardBacklightLevel::Medium, current));
        choices.push(level_choice(KeyboardBacklightLevel::High, current));
    }
    Some(
        KeyboardPanel {
            current: joined("当前：", keyboard_backlight_label(current).as_str()),
            choices,
            custom: if keyboard.custom {
                Some(app.keyboard_custom)
            } else {
                None
            },
            enabled: !app.is_busy(),
        },
    )
}

/// `command` is what is to be sent, and `after` is the state, once the user has used the panel of the
/// keyboard.
pub open spec fn backlight_used(
    before: LecooApp,
    custom: u8,
    requested: Option<KeyboardBacklightLevel>,
    command: Option<WorkerCommand>,
    after: LecooApp,
) -> bool {
    &&& after == (LecooApp { keyboard_custom: custom, ..before })
    &&& match requested {
        Some(level) => sends(
            command,
            before,
            "更新键盘背光"@,
            IpcRequest::SetKeyboardBacklight(level),
            true,
        ),
        None => command is None,
    }
}

/// Takes in what the user did with the keyboard: where the slider was left, and the level that was
/// clicked, if any. The command that is returned has to be sent.
pub fn keyboard_used(
    app: &mut LecooApp,
    custom: u8,
    requested: Option<KeyboardBacklightLevel>,
) -> (command: Option<WorkerCommand>)
    ensures
        backlight_used(*old(app), custom, requested, command, *final(app)),
{
    app.keyboard_custom = custom;
    match requested {
        Some(level) => app.submit(
            "更新键盘背光".to_owned(),
            IpcRequest::SetKeyboardBacklight(level),
            true,
        ),
        None => None,
    }
}

// ---- The LED ring ----

/// Whether the LED ring can be controlled at all.
pub open spec fn has_ring(led: LedCaps) -> bool {
    led.on_off || led.brightness || led.animation
}

/// What is shown of the LED ring.
pub struct LedPanel {
    pub current: String,
    pub auto_selected: bool,
    /// Where the slider stands, if there is one.
    pub brightness: Option<u8>,
    /// The effects that are offered.
    pub effects: Vec<Choice<BreathConfig>>,
    pub enabled: bool,
}

impl LedPanel {
    /// This panel shows the LED ring in the state `app`.
    pub open spec fn shows(self, app: LecooApp, led: LedCaps) -> bool {
        &&& self.current@ == "当前："@ + led_text(app.ring())
        &&& self.auto_selected == (app.ring() is Auto)
        &&& self.brightness == if led.brightness {
            Some(app.led_brightness)
        } else {
            None
        }
        &&& if led.animation {
            offer_effects(self.effects@, app.ring())
        } else {
            self.effects@.len() == 0
        }
        &&& self.enabled == !app.busy()
    }
}

/// `choices` offer the effects of the ring, of which the one in `mode` is selected.
pub open spec fn offer_effects(choices: Seq<Choice<BreathConfig>>, mode: PowerLedMode) -> bool {
    &&& choices.len() == effects().len()
    &&& forall|i: int|
        0 <= i < choices.len() ==> (#[trigger] choices[i]).title@ == effects()[i].0
            && choices[i].value == effects()[i].1 && choices[i].selected == (mode
            == PowerLedMode::Animation(effects()[i].1))
}

fn effect_choices(mode: PowerLedMode) -> (choices: Vec<Choice<BreathConfig>>)
    ensures
        offer_effects(choices@, mode),
{
    let list = led_effects();
    let mut choices: Vec<Choice<BreathConfig>> = Vec::new();
    let mut i: usize = 0;
    while i < 10
        invariant
            i <= 10,
            list@.len() == 10,
            effects().len() == 10,
            choices@.len() == i,
            forall|j: int|
                0 <= j < 10 ==> (#[trigger] list@[j]).0@ == effects()[j].0 && list@[j].1
                    == effects()[j].1,
            forall|j: int|
                0 <= j < i ==> (#[trigger] choices@[j]).title@ == effects()[j].0
                    && choices@[j].value == effects()[j].1 && choices@[j].selected == (mode
                    == PowerLedMode::Animation(effects()[j].1)),
        decreases 10 - i,
    {
        let (title, effect) = list[i];
        let selected = match mode {
            PowerLedMode::Animation(active) => active == effect,
            _ => false,
        };
        choices.push(Choice { title: title.to_owned(), selected, value: effect });
        i = i + 1;
    }
    choices
}

/// What is shown of the LED ring; nothing where it cannot be controlled.
pub fn led_panel(app: &LecooApp, led: &LedCaps) -> (panel: Option<LedPanel>)
    ensures
        panel is Some <==> has_ring(*led),
        panel matches Some(page) ==> page.shows(*app, *led),
{
    if !(led.on_off || led.brightness || led.animation) {
        return None;
    }
    let mode = app.current_led_mode();
    Some(
        LedPanel {
            current: joined("当前：", led_mode_label(mode).as_str()),
            auto_selected: match mode {
                PowerLedMode::Auto => true,
                _ => false,
            },
            brightness: if led.brightness {
                Some(app.led_brightness)
            } else {
                None
            },
            effects: if led.animation {
                effect_choices(mode)
            } else {
                Vec::new()
            },
            enabled: !app.is_busy(),
        },
    )
}

/// `command` is what is to be sent, and `after` is the state, once the user has used the panel of the
/// LED ring.
pub open spec fn ring_used(
    before: LecooApp,
    brightness: u8,
    requested: Option<PowerLedMode>,
    command: Option<WorkerCommand>,
    after: LecooApp,
) -> bool {
    &&& after == (LecooApp { led_brightness: brightness, ..before })
    &&& match requested {
        Some(mode) => sends(
            command,
            before,
            "更新后部 LED"@,
            IpcRequest::SetLedMode(mode),
            true,
        ),
        None => command is None,
    }
}

/// Takes in what the user did with the LED ring: where the slider was left, and the mode that was
/// clicked, if any. The command that is returned has to be sent.
pub fn led_used(app: &mut LecooApp, brightness: u8, requested: Option<PowerLedMode>) -> (command:
    Option<WorkerCommand>)
    ensures
        ring_used(*old(app), brightness, requested, command, *final(app)),
{
    app.led_brightness = brightness;
    match requested {
        Some(mode) => app.submit("更新后部 LED".to_owned(), IpcRequest::SetLedMode(mode), true),
        None => None,
    }
}

// ---- The settings ----

/// What is shown of the notification area and the start of the program.
pub struct DesktopPanel {
    pub startup_enabled: bool,
    /// Whether the user may change it.
    pub startup_changeable: bool,
    pub minimize_to_tray: bool,
    /// Whether the user may change it.
    pub minimize_changeable: bool,
    pub status: String,
    pub status_color: Option<Rgb>,
}

/// The line about the notification area, with its colour where it has one.
pub open spec fn tray_line(tray: TrayStatus) -> (Seq<char>, Option<Rgb>) {
    match tray {
        TrayStatus::Ready => ("通知区域已就绪。"@, Some((70, 175, 105))),
        TrayStatus::Unavailable(error) => ("通知区域不可用："@ + error@, Some((215, 80, 80))),
        TrayStatus::Pending => ("正在初始化通知区域…"@, None),
    }
}

impl DesktopPanel {
    /// This panel shows the state `app`.
    pub open spec fn shows(self, app: LecooApp) -> bool {
        &&& self.startup_enabled == app.startup_enabled
        &&& self.startup_changeable == (app.tray is Ready || app.startup_enabled)
        &&& self.minimize_to_tray == app.minimize_to_tray
        &&& self.minimize_changeable == (app.tray is Ready || app.minimize_to_tray)
        &&& (self.status@, self.status_color) == tray_line(app.tray)
    }
}

/// What is shown of the notification area and the start of the program. Without a notification area
/// a preference can only be turned off.
pub fn desktop_panel(app: &LecooApp) -> (panel: DesktopPanel)
    ensures
        panel.shows(*app),
{
    let ready = app.tray_is_ready();
    let (status, status_color): (String, Option<Rgb>) = match &app.tray {
        TrayStatus::Ready => ("通知区域已就绪。".to_owned(), Some((70, 175, 105))),
        TrayStatus::Unavailable(error) => (
            joined("通知区域不可用：", error.as_str()),
            Some((215, 80, 80)),
        ),
        TrayStatus::Pending => ("正在初始化通知区域…".to_owned(), None),
    };
    DesktopPanel {
        startup_enabled: app.startup_enabled,
        startup_changeable: ready || app.startup_enabled,
        minimize_to_tray: app.minimize_to_tray,
        minimize_changeable: ready || app.minimize_to_tray,
        status,
        status_color,
    }
}

/// `after` is the state once the start with the session was set to `enabled`, or could not be.
pub open spec fn startup_set(
    before: LecooApp,
    enabled: bool,
    outcome: Result<(), String>,
    after: LecooApp,
) -> bool {
    match outcome {
        Ok(()) => {
            &&& after == (LecooApp { startup_enabled: enabled, notice: after.notice, ..before })
            &&& says(
                after.notice,
                NoticeKind::Success,
                if enabled {
                    "已设置为登录后最小化启动。"@
                } else {
                    "已关闭登录后启动。"@
                },
            )
        },
        Err(error) => {
            &&& after == (LecooApp { notice: after.notice, ..before })
            &&& says(after.notice, NoticeKind::Error, error@)
        },
    }
}

/// Takes in whether the start with the session could be set to `enabled`.
pub fn startup_changed(app: &mut LecooApp, enabled: bool, outcome: Result<(), String>)
    ensures
        startup_set(*old(app), enabled, outcome, *final(app)),
{
    match outcome {
        Ok(()) => {
            app.startup_enabled = enabled;
            let message = if enabled {
                "已设置为登录后最小化启动。"
            } else {
                "已关闭登录后启动。"
            };
            app.set_notice(NoticeKind::Success, message.to_owned());
        },
        Err(error) => {
            app.set_notice(NoticeKind::Error, error);
        },
    }
}

/// `after` is the state once staying in the notification area was set to `enabled`, or could not be.
pub open spec fn minimize_set(
    before: LecooApp,
    enabled: bool,
    outcome: Result<(), String>,
    after: LecooApp,
) -> bool {
    match outcome {
        Ok(()) => {
            &&& after == (LecooApp { minimize_to_tray: enabled, notice: after.notice, ..before })
            &&& says(
                after.notice,
                NoticeKind::Success,
                if enabled {
                    "关闭窗口时将保留在通知区域。"@
                } else {
                    "关闭窗口时将直接退出程序。"@
                },
            )
        },
        Err(error) => {
            &&& after == (LecooApp { notice: after.notice, ..before })
            &&& says(after.notice, NoticeKind::Error, error@)
        },
    }
}

/// Takes in whether staying in the notification area could be set to `enabled`.
pub fn minimize_changed(app: &mut LecooApp, enabled: bool, outcome: Result<(), String>)
    ensures
        minimize_set(*old(app), enabled, outcome, *final(app)),
{
    match outcome {
        Ok(()) => {
            app.minimize_to_tray = enabled;
            let message = if enabled {
                "关闭窗口时将保留在通知区域。"
            } else {
                "关闭窗口时将直接退出程序。"
            };
            app.set_notice(NoticeKind::Success, message.to_owned());
        },
        Err(error) => {
            app.set_notice(NoticeKind::Error, error);
        },
    }
}

/// What the page of the settings shows of the daemon and the machine.
pub struct SettingsPanel {
    pub telemetry_enabled: bool,
    pub enabled: bool,
    pub telemetry_id: Option<String>,
    pub board: String,
    pub chip: String,
    pub revision: String,
    pub hram_offset: String,
}

impl SettingsPanel {
    /// This page shows the state `app`.
    pub open spec fn shows(self, app: LecooApp) -> bool {
        let system = app.snapshot.system;
        &&& app.snapshot.settings matches Some(settings) && self.telemetry_enabled
            == settings.telemetry_enabled
        &&& self.enabled == !app.busy()
        &&& shown(self.telemetry_id) == match app.telemetry_id {
            Some(id) => Some("最近读取的遥测 ID："@ + hex(id as nat, 16)),
            None => None,
        }
        &&& self.board@ == match app.snapshot.capabilities {
            Some(value) => value.board@,
            None => "—"@,
        }
        &&& self.chip@ == match system {
            Some(value) => value.chip@,
            None => "—"@,
        }
        &&& self.revision@ == match system {
            Some(value) => value.revision@,
            None => "—"@,
        }
        &&& self.hram_offset@ == match system {
            Some(value) => hex(value.hram_offset as nat, 4),
            None => "—"@,
        }
    }
}

/// What the page of the settings shows; nothing while the settings are not known.
pub fn settings_panel(app: &LecooApp) -> (panel: Option<SettingsPanel>)
    ensures
        panel is Some <==> app.snapshot.settings is Some,
        panel matches Some(page) ==> page.shows(*app),
{
    let telemetry_enabled = match &app.snapshot.settings {
        Some(settings) => settings.telemetry_enabled,
        None => {
            return None;
        },
    };
    let (chip, revision, hram_offset) = match &app.snapshot.system {
        Some(value) => (
            value.chip.clone(),
            value.revision.clone(),
            hex_text(value.hram_offset as u64, 4),
        ),
        None => ("—".to_owned(), "—".to_owned(), "—".to_owned()),
    };
    Some(
        SettingsPanel {
            telemetry_enabled,
            enabled: !app.is_busy(),
            telemetry_id: match app.telemetry_id {
                Some(id) => Some(joined("最近读取的遥测 ID：", hex_text(id, 16).as_str())),
                None => None,
            },
            board: match &app.snapshot.capabilities {
                Some(value) => value.board.clone(),
                None => "—".to_owned(),
            },
            chip,
            revision,
            hram_offset,
        },
    )
}

/// What can be clicked on the page of the settings.
#[derive(Clone, Copy, PartialEq, Eq, Debug, Structural)]
pub enum SettingsAction {
    ActivateTelemetry(bool),
    ReadTelemetryId,
    ApplySettings,
    RestoreDefaults,
}

/// `command` is what is to be sent, and `after` is the state, once something was clicked on the page of
/// the settings.
pub open spec fn page_used(
    before: LecooApp,
    action: SettingsAction,
    command: Option<WorkerCommand>,
    after: LecooApp,
) -> bool {
    match action {
        SettingsAction::ActivateTelemetry(enabled) => after == before && sends(
            command,
            before,
            "更新遥测设置"@,
            IpcRequest::DaemonCommand(DaemonCommand::ActivateTelemetry(enabled)),
            true,
        ),
        SettingsAction::ReadTelemetryId => after == before && sends(
            command,
            before,
            "读取遥测 ID"@,
            IpcRequest::DaemonCommand(DaemonCommand::GetTelemetryId),
            false,
        ),
        SettingsAction::ApplySettings => after == before && sends(
            command,
            before,
            "重新应用保存的设置"@,
            IpcRequest::DaemonCommand(DaemonCommand::ApplySettings),
            true,
        ),
        SettingsAction::RestoreDefaults => {
            &&& command is None
            &&& after == (LecooApp {
                confirmation: after.confirmation,
                ..before
            })
            &&& after.confirmation matches Some(asked) && {
                &&& asked.title@ == "恢复默认设置"@
                &&& asked.message@
                    == "这会将后台保存的风扇、性能、电池和灯光设置恢复为默认值，并立即应用到硬件。"@
                &&& asked.label@ == "恢复默认设置"@
                &&& asked.request == IpcRequest::DaemonCommand(DaemonCommand::RestoreDefaults)
                &&& asked.refresh_after
            }
        },
    }
}

/// Takes in what was clicked on the page of the settings. Restoring the defaults waits for approval;
/// for anything else the command that is returned has to be sent.
pub fn settings_used(app: &mut LecooApp, action: SettingsAction) -> (command: Option<WorkerCommand>)
    ensures
        page_used(*old(app), action, command, *final(app)),
{
    match action {
        SettingsAction::ActivateTelemetry(enabled) => app.submit(
            "更新遥测设置".to_owned(),
            IpcRequest::DaemonCommand(DaemonCommand::ActivateTelemetry(enabled)),
            true,
        ),
        SettingsAction::ReadTelemetryId => app.submit(
            "读取遥测 ID".to_owned(),
            IpcRequest::DaemonCommand(DaemonCommand::GetTelemetryId),
            false,
        ),
        SettingsAction::ApplySettings => app.submit(
            "重新应用保存的设置".to_owned(),
            IpcRequest::DaemonCommand(DaemonCommand::ApplySettings),
            true,
        ),
        SettingsAction::RestoreDefaults => {
            app.ask_confirmation(
                "恢复默认设置".to_owned(),
                "这会将后台保存的风扇、性能、电池和灯光设置恢复为默认值，并立即应用到硬件。".to_owned(),
                "恢复默认设置".to_owned(),
                IpcRequest::DaemonCommand(DaemonCommand::RestoreDefaults),
                true,
            );
            None
        },
    }
}

/// A battery that is kept between thresholds, left alone or frozen can always be charged fully again:
/// the option is there on every machine.
pub proof fn law_full_charge_is_always_offered(capabilities: ChargeCaps)
    ensures
        offers(battery_options(capabilities), ChargeIntent::Full),
{
    let presets = options_of(capabilities.presets@);
    let full = with_option(presets, "完全充电"@, ChargeIntent::Full);
    if !offers(presets, ChargeIntent::Full) {
        assert(full[presets.len() as int].1 == ChargeIntent::Full);
    }
    let at = choose|i: int| 0 <= i < full.len() && (#[trigger] full[i]).1 == ChargeIntent::Full;
    assert(battery_options(capabilities)[at] == full[at]);
}

// ---- What holds of the pages ----

/// The badge of the connection, for each of its states; the reason of a failure does not matter to it.
pub proof fn law_the_badge_tells_the_connection(connection: ConnectionState)
    ensures
        connection is Connecting ==> badge(connection) == ("正在连接"@, (220u8, 170u8, 40u8)),
        connection is Online ==> badge(connection) == ("后台服务已连接"@, (70u8, 180u8, 110u8)),
        connection is Offline ==> badge(connection) == ("后台服务未连接"@, (210u8, 80u8, 80u8)),
{
}

/// Every page is offered once, at its place and under its name.
pub proof fn law_every_page_is_offered(page: Page)
    ensures
        page_order().len() == 5,
        page_order()[match page {
            Page::Dashboard => 0int,
            Page::Thermal => 1,
            Page::PowerAndBattery => 2,
            Page::Lighting => 3,
            Page::Settings => 4,
        }] == page,
        page is Dashboard ==> page_text(page) == "概览"@,
        page is Thermal ==> page_text(page) == "散热"@,
        page is PowerAndBattery ==> page_text(page) == "性能与电池"@,
        page is Lighting ==> page_text(page) == "灯光"@,
        page is Settings ==> page_text(page) == "设置"@,
{
}

/// A reading is the number and its unit, and a dash where there is none.
pub proof fn law_a_reading_is_number_and_unit(value: nat, unit: Seq<char>)
    ensures
        reading(Some(value as int), unit) == decimal(value) + unit,
        reading(None, unit) == "—"@,
{
}

/// The time since the last reading is told in whole seconds, rounded down, and never counts below
/// zero.
pub proof fn law_the_age_is_in_whole_seconds(time: u64, now: u64, seconds: nat)
    ensures
        synced_text(None, now) == "最近同步：等待后台服务"@,
        now < time ==> synced_text(Some(time), now) == "最近同步："@ + decimal(0) + " 秒前"@,
        time <= now && seconds * 1000 <= now - time < (seconds + 1) * 1000 ==> synced_text(
            Some(time),
            now,
        ) == "最近同步："@ + decimal(seconds) + " 秒前"@,
{
    if time <= now && seconds * 1000 <= now - time < (seconds + 1) * 1000 {
        assert((now - time) / 1000 == seconds);
    }
}

/// The summary of a charge status names what is wanted first and what is in effect next, and the
/// thresholds where there are any.
pub proof fn law_the_summary_of_a_charge_status(status: ChargeStatus)
    ensures
        status.thresholds is None ==> charge_summary(status) == "目标："@ + charge_text(
            status.desired,
        ) + " · 生效："@ + charge_text(status.effective) + ""@,
        status.thresholds matches Some((min, max)) ==> charge_summary(status) == "目标："@
            + charge_text(status.desired) + " · 生效："@ + charge_text(status.effective) + (
        " · 阈值 "@ + (decimal(min as nat) + "%–"@ + decimal(max as nat) + "%"@)),
        status.pending is None ==> pending_text(status.pending) is None,
        status.pending matches Some(reason) ==> pending_text(status.pending) == Some(
            "等待应用："@ + reason@,
        ),
{
}

/// The dashboard shows each value that is known where it belongs, and a dash where it is not.
pub proof fn law_the_dashboard_shows_what_is_known(page: Dashboard, app: LecooApp, now: u64)
    requires
        page.shows(app, now),
    ensures
        app.snapshot.temperatures matches Some(read) ==> page.cpu_temperature@ == decimal(
            read.cpu_c as nat,
        ) + " °C"@ && page.system_temperature@ == decimal(read.system_c as nat) + " °C"@,
        app.snapshot.temperatures is None ==> page.cpu_temperature@ == "—"@
            && page.system_temperature@ == "—"@,
        app.snapshot.fans matches Some(read) ==> page.cpu_fan@ == decimal(read.cpu_rpm as nat)
            + " RPM"@,
        app.snapshot.fans is None ==> page.cpu_fan@ == "—"@,
        app.snapshot.charge matches Some(status) ==> page.battery@ == decimal(status.soc as nat)
            + "%"@,
        app.snapshot.charge is None ==> page.battery@ == "—"@ && page.charge is None
            && page.charge_pending is None,
        app.snapshot.charge matches Some(status) ==> (page.charge matches Some(line) && line@
            == charge_summary(status)),
        app.snapshot.charge matches Some(status) ==> (page.charge_pending is Some
            <==> status.pending is Some),
        app.connection matches ConnectionState::Offline(error) ==> (page.offline matches Some(
            line,
        ) && line@ == error@),
        !(app.connection is Offline) ==> page.offline is None,
        app.snapshot.capabilities matches Some(known) ==> page.board@ == known.board@,
        app.snapshot.capabilities is None ==> page.board@ == "等待连接"@,
        app.snapshot.system matches Some(known) ==> page.chip@ == known.chip@
            && page.daemon_version@ == known.daemon_version@,
        app.snapshot.system is None ==> page.chip@ == "—"@ && (
        app.snapshot.capabilities matches Some(known) ==> page.daemon_version@
            == known.daemon_version@),
        app.snapshot.system is None && app.snapshot.capabilities is None ==> page.daemon_version@
            == "—"@,
        page.power_profile@ == power_profile_text(app.profile()),
        page.synced@ == synced_text(app.snapshot.updated_at, now),
{
}

/// The card of a fan shows that fan: its own speed, mode and slider, which stands no higher than the
/// fan may be driven, and otherwise where the user left it.
pub proof fn law_a_card_shows_its_fan(card: FanCard, app: LecooApp, fan: FanCaps)
    requires
        card.shows(app, fan),
    ensures
        card.pwm <= fan.duty_max,
        card.duty_max == fan.duty_max,
        fan.index is Cpu ==> (app.cpu_pwm <= fan.duty_max ==> card.pwm == app.cpu_pwm) && (
        app.cpu_pwm > fan.duty_max ==> card.pwm == fan.duty_max),
        fan.index is Gpu ==> (app.gpu_pwm <= fan.duty_max ==> card.pwm == app.gpu_pwm) && (
        app.gpu_pwm > fan.duty_max ==> card.pwm == fan.duty_max),
        app.snapshot.fans matches Some(read) ==> card.rpm@ == decimal(
            if fan.index is Cpu {
                read.cpu_rpm as nat
            } else {
                read.gpu_rpm as nat
            },
        ) + " RPM"@,
        app.snapshot.fans is None ==> card.rpm@ == "—"@,
        app.snapshot.settings matches Some(settings) ==> card.mode == if fan.index is Cpu {
            settings.fan_mode_cpu
        } else {
            settings.fan_mode_gpu
        },
        app.snapshot.settings is None ==> card.mode is Auto,
        card.current@ == "当前："@ + fan_mode_text(card.mode),
        card.heading@ == fan_text(fan.index) + " 风扇"@,
        card.slider@ == "自定义 PWM（最大 "@ + decimal(fan.duty_max as nat) + "）"@,
        card.enabled <==> !app.refresh_in_flight && !app.action_in_flight,
{
}

/// A request is passed on exactly if the worker is not busy, and is then the one that was asked for,
/// under its name.
pub proof fn law_a_request_is_passed_on(
    command: Option<WorkerCommand>,
    app: LecooApp,
    label: Seq<char>,
    request: IpcRequest,
    refresh_after: bool,
)
    requires
        sends(command, app, label, request, refresh_after),
    ensures
        command is None <==> app.refresh_in_flight || app.action_in_flight,
        command matches Some(given) ==> (given matches WorkerCommand::Request {
            label: title,
            request: sent,
            refresh_after: refresh,
        } && title@ == label && sent == request && refresh == refresh_after),
{
}

/// Which intents the battery is offered, from the fields of the capabilities: those of the presets
/// and full charge always, the firmware's protection where it has one, and freezing where it can
/// freeze; and no others.
pub proof fn law_which_intents_are_offered(capabilities: ChargeCaps, intent: ChargeIntent)
    ensures
        offers(battery_options(capabilities), intent) <==> intent is Full || intent
            == ChargeIntent::Preserve(None) && capabilities.preserve_fixed is Some || intent
            is Freeze && capabilities.freeze_soc is Some || (exists|i: int|
            0 <= i < capabilities.presets@.len() && (#[trigger] capabilities.presets@[i]).1
                == intent),
{
    let presets = options_of(capabilities.presets@);
    let full = with_option(presets, "完全充电"@, ChargeIntent::Full);
    let preserved = if capabilities.preserve_fixed is Some {
        with_option(full, "固件电池保护"@, ChargeIntent::Preserve(None))
    } else {
        full
    };
    lemma_offered_with(presets, "完全充电"@, ChargeIntent::Full, intent);
    lemma_offered_with(full, "固件电池保护"@, ChargeIntent::Preserve(None), intent);
    lemma_offered_with(preserved, "冻结充电"@, ChargeIntent::Freeze, intent);
    if exists|i: int|
        0 <= i < capabilities.presets@.len() && (#[trigger] capabilities.presets@[i]).1 == intent {
        let i = choose|i: int|
            0 <= i < capabilities.presets@.len() && (#[trigger] capabilities.presets@[i]).1
                == intent;
        assert(presets[i].1 == intent);
    }
    if offers(presets, intent) {
        let i = choose|i: int| 0 <= i < presets.len() && (#[trigger] presets[i]).1 == intent;
        assert(capabilities.presets@[i].1 == intent);
    }
}

proof fn lemma_offered_with(
    options: Seq<(Seq<char>, ChargeIntent)>,
    title: Seq<char>,
    added: ChargeIntent,
    intent: ChargeIntent,
)
    ensures
        offers(with_option(options, title, added), intent) <==> offers(options, intent) || intent
            == added,
{
    let longer = with_option(options, title, added);
    if offers(options, intent) {
        let i = choose|i: int| 0 <= i < options.len() && (#[trigger] options[i]).1 == intent;
        assert(longer[i].1 == intent);
    }
    if intent == added && !offers(options, added) {
        assert(longer[options.len() as int].1 == intent);
    }
    if offers(longer, intent) && !offers(options, intent) {
        let i = choose|i: int| 0 <= i < longer.len() && (#[trigger] longer[i]).1 == intent;
        if i < options.len() {
            assert(options[i].1 == intent);
        }
    }
}

/// The presets of the machine come first, in their order and under their names; what is added to them
/// comes after them, each under its own name.
pub proof fn law_presets_come_first(capabilities: ChargeCaps, i: int)
    ensures
        battery_options(capabilities).len() >= capabilities.presets@.len(),
        0 <= i < capabilities.presets@.len() ==> battery_options(capabilities)[i] == (
            capabilities.presets@[i].0@,
            capabilities.presets@[i].1,
        ),
        capabilities.presets@.len() <= i < battery_options(capabilities).len() ==> {
            let option = battery_options(capabilities)[i];
            ||| option == ("完全充电"@, ChargeIntent::Full)
            ||| option == ("固件电池保护"@, ChargeIntent::Preserve(None))
            ||| option == ("冻结充电"@, ChargeIntent::Freeze)
        },
{
}

/// An option without a visible name goes by the name of its intent, and any other by its own.
pub proof fn law_blank_options_go_by_their_intent(name: Seq<char>, intent: ChargeIntent)
    ensures
        is_blank(name) ==> option_title((name, intent)) == charge_text(intent),
        !is_blank(name) ==> option_title((name, intent)) == name,
{
}

/// The lines about the battery tell the charge, what is wanted, what is in effect, and the thresholds
/// and the reason of a delay where there are any.
pub proof fn law_the_battery_lines(lines: BatteryLines, status: ChargeStatus)
    requires
        describes(lines, status),
    ensures
        lines.soc@ == "当前电量："@ + decimal(status.soc as nat) + "%"@,
        lines.desired@ == "目标策略："@ + charge_text(status.desired),
        lines.effective@ == "当前生效："@ + charge_text(status.effective),
        lines.thresholds is Some <==> status.thresholds is Some,
        status.thresholds matches Some((min, max)) ==> lines.thresholds->Some_0@ == "当前阈值："@ + (
        decimal(min as nat) + "%–"@ + decimal(max as nat) + "%"@),
        lines.pending is Some <==> status.pending is Some,
        status.pending matches Some(reason) ==> lines.pending->Some_0@ == "等待应用："@ + reason@,
{
}

/// The intent that is selected is the one that is wanted, whatever is in effect.
pub proof fn law_the_wanted_intent_is_selected(app: LecooApp)
    ensures
        app.snapshot.charge matches Some(status) ==> desired(app) == Some(status.desired),
        app.snapshot.charge is None ==> desired(app) is None,
{
}

/// A value within the bounds stays as it is, and any other comes to the bound that it is beyond.
pub proof fn law_clamping(value: u8, low: u8, high: u8)
    requires
        low <= high,
    ensures
        low <= clamped(value, low, high) <= high,
        low <= value <= high ==> clamped(value, low, high) == value,
        value < low ==> clamped(value, low, high) == low,
        value > high ==> clamped(value, low, high) == high,
{
}

/// Which levels of the backlight are offered, from the fields of the capabilities: off where it can be
/// switched, and the three steps, from low to high, where there are steps.
pub proof fn law_which_levels_are_offered(keyboard: KbdCaps)
    ensures
        has_backlight(keyboard) <==> keyboard.on_off || keyboard.levels || keyboard.custom,
        keyboard_levels(keyboard).contains(KeyboardBacklightLevel::Off) <==> keyboard.on_off,
        keyboard_levels(keyboard).contains(KeyboardBacklightLevel::Low) <==> keyboard.levels,
        keyboard_levels(keyboard).contains(KeyboardBacklightLevel::Medium) <==> keyboard.levels,
        keyboard_levels(keyboard).contains(KeyboardBacklightLevel::High) <==> keyboard.levels,
        keyboard.levels ==> ({
            let list = keyboard_levels(keyboard);
            list.skip(list.len() - 3) == seq![
                KeyboardBacklightLevel::Low,
                KeyboardBacklightLevel::Medium,
                KeyboardBacklightLevel::High,
            ]
        }),
        keyboard_levels(keyboard).len() == (if keyboard.on_off { 1int } else { 0 }) + (
        if keyboard.levels { 3int } else { 0 }),
{
    let list = keyboard_levels(keyboard);
    if keyboard.on_off {
        assert(list[0] == KeyboardBacklightLevel::Off);
    }
    if keyboard.levels {
        assert(list[list.len() - 3] == KeyboardBacklightLevel::Low);
        assert(list[list.len() - 2] == KeyboardBacklightLevel::Medium);
        assert(list[list.len() - 1] == KeyboardBacklightLevel::High);
        assert(list.skip(list.len() - 3) =~= seq![
            KeyboardBacklightLevel::Low,
            KeyboardBacklightLevel::Medium,
            KeyboardBacklightLevel::High,
        ]);
    }
    assert forall|k: int| 0 <= k < list.len() implies (#[trigger] list[k] is Off ==> keyboard.on_off)
        && (list[k] is Low || list[k] is Medium || list[k] is High ==> keyboard.levels) by {}
}

/// At most one level is selected, and it is the current one.
pub proof fn law_the_current_level_is_selected(
    choices: Seq<Choice<KeyboardBacklightLevel>>,
    keyboard: KbdCaps,
    current: KeyboardBacklightLevel,
    i: int,
)
    requires
        offer_levels(choices, keyboard_levels(keyboard), current),
        0 <= i < choices.len(),
    ensures
        choices.len() == keyboard_levels(keyboard).len(),
        choices[i].value == keyboard_levels(keyboard)[i],
        choices[i].selected <==> choices[i].value == current,
        choices[i].title@ == keyboard_text(choices[i].value),
{
}

/// The ring is shown if it can be controlled in some way. Of its effects the one that is on is
/// selected, and none in any other mode.
pub proof fn law_the_active_effect_is_selected(
    led: LedCaps,
    choices: Seq<Choice<BreathConfig>>,
    mode: PowerLedMode,
    i: int,
)
    requires
        offer_effects(choices, mode),
        0 <= i < choices.len(),
    ensures
        has_ring(led) <==> led.on_off || led.brightness || led.animation,
        choices.len() == effects().len(),
        choices[i].value == effects()[i].1,
        choices[i].title@ == effects()[i].0,
        choices[i].selected <==> mode is Animation && mode->Animation_0 == choices[i].value,
{
}

/// The line about the notification area, for each of its states.
pub proof fn law_the_line_about_the_notification_area(tray: TrayStatus)
    ensures
        tray is Ready ==> tray_line(tray) == ("通知区域已就绪。"@, Some((70u8, 175u8, 105u8))),
        tray is Pending ==> tray_line(tray) == ("正在初始化通知区域…"@, None::<Rgb>),
        tray matches TrayStatus::Unavailable(error) ==> tray_line(tray) == (
            "通知区域不可用："@ + error@,
            Some((215u8, 80u8, 80u8)),
        ),
{
}

/// The page of the settings shows what is known of the daemon and the machine: the number of the
/// client with sixteen digits and the window with four, and a dash for what is not known.
pub proof fn law_the_settings_page(page: SettingsPanel, app: LecooApp)
    requires
        page.shows(app),
    ensures
        app.snapshot.settings matches Some(settings) && page.telemetry_enabled
            == settings.telemetry_enabled,
        page.enabled <==> !app.refresh_in_flight && !app.action_in_flight,
        page.telemetry_id is Some <==> app.telemetry_id is Some,
        app.telemetry_id matches Some(id) ==> page.telemetry_id->Some_0@ == "最近读取的遥测 ID："@
            + hex(id as nat, 16),
        app.snapshot.capabilities matches Some(known) ==> page.board@ == known.board@,
        app.snapshot.capabilities is None ==> page.board@ == "—"@,
        app.snapshot.system matches Some(known) ==> {
            &&& page.chip@ == known.chip@
            &&& page.revision@ == known.revision@
            &&& page.hram_offset@ == hex(known.hram_offset as nat, 4)
        },
        app.snapshot.system is None ==> page.chip@ == "—"@ && page.revision@ == "—"@
            && page.hram_offset@ == "—"@,
{
}

// ---- What holds of clicks ----

/// The colours of the three kinds of notices.
pub proof fn law_notices_have_their_colour(kind: NoticeKind)
    ensures
        kind is Info ==> notice_rgb(kind) == (80u8, 145u8, 210u8),
        kind is Success ==> notice_rgb(kind) == (70u8, 175u8, 105u8),
        kind is Error ==> notice_rgb(kind) == (215u8, 80u8, 80u8),
{
}

/// The page of the fans waits for the capabilities, says that there are no fans, or shows their cards
/// in one column for one fan and in two for more.
pub proof fn law_the_page_of_the_fans(app: LecooApp)
    ensures
        thermal_page(app) is Waiting <==> app.snapshot.capabilities is None,
        app.snapshot.capabilities matches Some(capabilities) ==> {
            &&& thermal_page(app) is NoFans <==> capabilities.fans@.len() == 0
            &&& thermal_page(app) == Thermal::Columns(1) <==> capabilities.fans@.len() == 1
            &&& thermal_page(app) == Thermal::Columns(2) <==> capabilities.fans@.len() > 1
        },
{
}

/// Using the card of a fan moves the slider of that fan alone. A mode that was clicked is passed on for
/// that fan, or waits for approval where it is risky; without a click nothing is sent.
pub proof fn law_a_card_is_about_its_fan(
    before: LecooApp,
    fan: FanCaps,
    pwm: u8,
    requested: Option<FanMode>,
    command: Option<WorkerCommand>,
    after: LecooApp,
)
    requires
        card_used(before, fan, pwm, requested, command, after),
    ensures
        fan.index is Cpu ==> after.cpu_pwm == pwm && after.gpu_pwm == before.gpu_pwm,
        fan.index is Gpu ==> after.gpu_pwm == pwm && after.cpu_pwm == before.cpu_pwm,
        after == (LecooApp {
            cpu_pwm: after.cpu_pwm,
            gpu_pwm: after.gpu_pwm,
            confirmation: after.confirmation,
            ..before
        }),
        requested is None ==> command is None && after.confirmation == before.confirmation,
        requested matches Some(mode) ==> {
            let risky = mode is Turbo || mode == FanMode::Custom(0);
            &&& risky ==> command is None && (after.confirmation matches Some(asked) && {
                &&& asked.request == (IpcRequest::SetFanMode { fan: fan.index, mode })
                &&& asked.refresh_after
                &&& asked.title@ == "确认风扇设置"@
                &&& asked.message@ == super::app::warning(mode)
                &&& asked.label@ == "设置 "@ + fan_text(fan.index) + " 风扇"@
            })
            &&& !risky ==> after.confirmation == before.confirmation && (command is Some
                <==> !before.refresh_in_flight && !before.action_in_flight)
        },
        command matches Some(given) ==> (given matches WorkerCommand::Request {
            label,
            request,
            refresh_after,
        } && requested is Some && request == (IpcRequest::SetFanMode {
            fan: fan.index,
            mode: requested->Some_0,
        }) && refresh_after && label@ == "设置 "@ + fan_text(fan.index) + " 风扇"@),
{
}

/// Every power profile of the machine is offered at its place and under its name, and the current one
/// is selected.
pub proof fn law_the_current_profile_is_selected(
    choices: Seq<Choice<PowerProfile>>,
    profiles: Seq<PowerProfile>,
    current: PowerProfile,
    i: int,
)
    requires
        offer_profiles(choices, profiles, current),
        0 <= i < profiles.len(),
    ensures
        choices.len() == profiles.len(),
        choices[i].value == profiles[i],
        choices[i].selected <==> profiles[i] == current,
        choices[i].title@ == power_profile_text(profiles[i]),
{
}

/// A profile that was clicked is passed on as it is; without a click nothing is sent.
pub proof fn law_the_clicked_profile_is_passed_on(
    app: LecooApp,
    requested: Option<PowerProfile>,
    command: Option<WorkerCommand>,
)
    requires
        profile_used(app, requested, command),
    ensures
        command is Some <==> requested is Some && !app.refresh_in_flight && !app.action_in_flight,
        command matches Some(given) ==> (given matches WorkerCommand::Request {
            label,
            request,
            refresh_after,
        } && request == IpcRequest::SetPowerProfile(requested->Some_0) && refresh_after && label@
            == "更新性能模式"@),
{
}

/// Every option of the battery is offered at its place, and the wanted one is selected.
pub proof fn law_the_wanted_option_is_selected(
    choices: Seq<Choice<ChargeIntent>>,
    options: Seq<(Seq<char>, ChargeIntent)>,
    wanted: Option<ChargeIntent>,
    i: int,
)
    requires
        offer_options(choices, options, wanted),
        0 <= i < options.len(),
    ensures
        choices.len() == options.len(),
        choices[i].value == options[i].1,
        choices[i].title@ == option_title(options[i]),
        wanted is None ==> !choices[i].selected,
        wanted matches Some(intent) ==> (choices[i].selected <==> intent == options[i].1),
{
}

/// Using the battery: the sliders stay where they were left. What is passed on is the pair of
/// thresholds, the lower one first, if the sliders were applied, and the clicked option otherwise.
pub proof fn law_thresholds_count_before_a_click(
    before: LecooApp,
    clicked: Option<ChargeIntent>,
    sliders: Option<(u8, u8)>,
    apply_sliders: bool,
    command: Option<WorkerCommand>,
    after: LecooApp,
)
    requires
        charging_used(before, clicked, sliders, apply_sliders, command, after),
    ensures
        sliders is None ==> after == before,
        sliders matches Some((low, high)) ==> after.charge_min == low && after.charge_max == high,
        after == (LecooApp {
            charge_min: after.charge_min,
            charge_max: after.charge_max,
            ..before
        }),
        ({
            let applied = apply_sliders && sliders is Some;
            &&& command is Some <==> (applied || clicked is Some) && !before.refresh_in_flight
                && !before.action_in_flight
            &&& command matches Some(given) ==> (given matches WorkerCommand::Request {
                label,
                request,
                refresh_after,
            } && refresh_after && label@ == "更新电池保护"@ && (applied ==> request
                == IpcRequest::SetChargeIntent(
                ChargeIntent::Preserve(
                    Some(ChargeRange { min: sliders->Some_0.0, max: sliders->Some_0.1 }),
                ),
            )) && (!applied ==> request == IpcRequest::SetChargeIntent(clicked->Some_0)))
        }),
{
}

/// The sliders of the thresholds stay within the bounds, one not above the other, and stand where the
/// user left them as far as that allows.
pub proof fn law_sliders_stay_within_bounds(
    sliders: RangeSliders,
    app: LecooApp,
    bound_min: u8,
    bound_max: u8,
)
    requires
        bound_min <= bound_max,
        sliders.stand(app, bound_min, bound_max),
    ensures
        bound_min <= sliders.min <= sliders.max <= bound_max,
        bound_min <= app.charge_min <= bound_max ==> sliders.min == app.charge_min,
        bound_min <= app.charge_min <= app.charge_max <= bound_max ==> sliders.max
            == app.charge_max,
        app.charge_min < bound_min ==> sliders.min == bound_min,
        app.charge_min > bound_max ==> sliders.min == bound_max,
        app.charge_max > bound_max ==> sliders.max == bound_max,
        app.charge_max < sliders.min ==> sliders.max == sliders.min,
        sliders.min <= app.charge_max <= bound_max ==> sliders.max == app.charge_max,
        sliders.label@ == "自定义阈值（允许范围 "@ + (decimal(bound_min as nat) + "%–"@ + decimal(
            bound_max as nat,
        ) + "%"@) + "）"@,
{
}

/// The panel of the keyboard names the current level, has a slider exactly where a level of one's own
/// can be set, and can be used while the worker is idle.
pub proof fn law_the_panel_of_the_keyboard(panel: KeyboardPanel, app: LecooApp, keyboard: KbdCaps)
    requires
        panel.shows(app, keyboard),
    ensures
        panel.current@ == "当前："@ + keyboard_text(app.backlight()),
        panel.choices@.len() == keyboard_levels(keyboard).len(),
        forall|i: int|
            0 <= i < panel.choices@.len() ==> (#[trigger] panel.choices@[i]).value
                == keyboard_levels(keyboard)[i] && (panel.choices@[i].selected
                <==> panel.choices@[i].value == app.backlight()),
        keyboard.custom ==> panel.custom == Some(app.keyboard_custom),
        !keyboard.custom ==> panel.custom is None,
        panel.enabled <==> !app.refresh_in_flight && !app.action_in_flight,
{
}

/// Using the panel of the keyboard: the slider stays where it was left, and the clicked level is
/// passed on as it is.
pub proof fn law_the_clicked_level_is_passed_on(
    before: LecooApp,
    custom: u8,
    requested: Option<KeyboardBacklightLevel>,
    command: Option<WorkerCommand>,
    after: LecooApp,
)
    requires
        backlight_used(before, custom, requested, command, after),
    ensures
        after.keyboard_custom == custom,
        after == (LecooApp { keyboard_custom: after.keyboard_custom, ..before }),
        command is Some <==> requested is Some && !before.refresh_in_flight
            && !before.action_in_flight,
        command matches Some(given) ==> (given matches WorkerCommand::Request {
            label,
            request,
            refresh_after,
        } && request == IpcRequest::SetKeyboardBacklight(requested->Some_0) && refresh_after
            && label@ == "更新键盘背光"@),
{
}

/// The panel of the LED ring names the current mode, has a slider exactly where the brightness can be
/// set, offers the effects exactly where there are any, and can be used while the worker is idle.
pub proof fn law_the_panel_of_the_ring(panel: LedPanel, app: LecooApp, led: LedCaps)
    requires
        panel.shows(app, led),
    ensures
        panel.current@ == "当前："@ + led_text(app.ring()),
        panel.auto_selected <==> app.ring() is Auto,
        led.brightness ==> panel.brightness == Some(app.led_brightness),
        !led.brightness ==> panel.brightness is None,
        led.animation ==> panel.effects@.len() == 10,
        led.animation ==> forall|i: int|
            0 <= i < panel.effects@.len() ==> (#[trigger] panel.effects@[i]).value
                == effects()[i].1 && (panel.effects@[i].selected <==> app.ring()
                == PowerLedMode::Animation(panel.effects@[i].value)),
        !led.animation ==> panel.effects@.len() == 0,
        panel.enabled <==> !app.refresh_in_flight && !app.action_in_flight,
{
}

/// Using the panel of the LED ring: the slider stays where it was left, and the clicked mode is passed
/// on as it is.
pub proof fn law_the_clicked_ring_mode_is_passed_on(
    before: LecooApp,
    brightness: u8,
    requested: Option<PowerLedMode>,
    command: Option<WorkerCommand>,
    after: LecooApp,
)
    requires
        ring_used(before, brightness, requested, command, after),
    ensures
        after.led_brightness == brightness,
        after == (LecooApp { led_brightness: after.led_brightness, ..before }),
        command is Some <==> requested is Some && !before.refresh_in_flight
            && !before.action_in_flight,
        command matches Some(given) ==> (given matches WorkerCommand::Request {
            label,
            request,
            refresh_after,
        } && request == IpcRequest::SetLedMode(requested->Some_0) && refresh_after && label@
            == "更新后部 LED"@),
{
}

/// A preference can always be turned off, and turned on only with an icon in the notification area.
pub proof fn law_preferences_need_the_icon(panel: DesktopPanel, app: LecooApp)
    requires
        panel.shows(app),
    ensures
        panel.startup_enabled == app.startup_enabled,
        panel.minimize_to_tray == app.minimize_to_tray,
        app.startup_enabled ==> panel.startup_changeable,
        app.minimize_to_tray ==> panel.minimize_changeable,
        app.tray is Ready ==> panel.startup_changeable && panel.minimize_changeable,
        !(app.tray is Ready) && !app.startup_enabled ==> !panel.startup_changeable,
        !(app.tray is Ready) && !app.minimize_to_tray ==> !panel.minimize_changeable,
        panel.status@ == tray_line(app.tray).0,
        panel.status_color == tray_line(app.tray).1,
{
}

/// A preference changes exactly if it could be set, to what was set, and the notice says how it went;
/// the other preference and everything else stay as they are.
pub proof fn law_preferences_change_if_they_could_be_set(
    before: LecooApp,
    enabled: bool,
    outcome: Result<(), String>,
    started: LecooApp,
    minimized: LecooApp,
)
    requires
        startup_set(before, enabled, outcome, started),
        minimize_set(before, enabled, outcome, minimized),
    ensures
        started == (LecooApp {
            startup_enabled: started.startup_enabled,
            notice: started.notice,
            ..before
        }),
        minimized == (LecooApp {
            minimize_to_tray: minimized.minimize_to_tray,
            notice: minimized.notice,
            ..before
        }),
        outcome is Ok ==> {
            &&& started.startup_enabled == enabled
            &&& minimized.minimize_to_tray == enabled
            &&& started.notice matches Some(notice) && notice.kind is Success && (enabled
                ==> notice.text@ == "已设置为登录后最小化启动。"@) && (!enabled ==> notice.text@
                == "已关闭登录后启动。"@)
            &&& minimized.notice matches Some(notice) && notice.kind is Success && (enabled
                ==> notice.text@ == "关闭窗口时将保留在通知区域。"@) && (!enabled ==> notice.text@
                == "关闭窗口时将直接退出程序。"@)
        },
        outcome matches Err(error) ==> {
            &&& started.startup_enabled == before.startup_enabled
            &&& minimized.minimize_to_tray == before.minimize_to_tray
            &&& started.notice matches Some(notice) && notice.kind is Error && notice.text@ == error@
            &&& minimized.notice matches Some(notice) && notice.kind is Error && notice.text@
                == error@
        },
{
}

/// What can be clicked on the page of the settings: each command of the daemon is passed on under its
/// name, and the state is read again after all of them but the one that only tells a number. Restoring
/// the defaults sends nothing and opens a question; the answer to it decides.
pub proof fn law_the_page_of_the_settings_is_used(
    before: LecooApp,
    action: SettingsAction,
    command: Option<WorkerCommand>,
    after: LecooApp,
)
    requires
        page_used(before, action, command, after),
    ensures
        after == (LecooApp { confirmation: after.confirmation, ..before }),
        !(action is RestoreDefaults) ==> after == before && (command is Some
            <==> !before.refresh_in_flight && !before.action_in_flight),
        action is RestoreDefaults ==> command is None && (after.confirmation matches Some(asked) && {
            &&& asked.request == IpcRequest::DaemonCommand(DaemonCommand::RestoreDefaults)
            &&& asked.refresh_after
            &&& asked.title@ == "恢复默认设置"@
            &&& asked.label@ == "恢复默认设置"@
            &&& asked.message@
                == "这会将后台保存的风扇、性能、电池和灯光设置恢复为默认值，并立即应用到硬件。"@
        }),
        command matches Some(given) ==> (given matches WorkerCommand::Request {
            label,
            request,
            refresh_after,
        } && (refresh_after <==> !(action is ReadTelemetryId)) && match action {
            SettingsAction::ActivateTelemetry(enabled) => label@ == "更新遥测设置"@ && request
                == IpcRequest::DaemonCommand(DaemonCommand::ActivateTelemetry(enabled)),
            SettingsAction::ReadTelemetryId => label@ == "读取遥测 ID"@ && request
                == IpcRequest::DaemonCommand(DaemonCommand::GetTelemetryId),
            SettingsAction::ApplySettings => label@ == "重新应用保存的设置"@ && request
                == IpcRequest::DaemonCommand(DaemonCommand::ApplySettings),
            SettingsAction::RestoreDefaults => false,
        }),
{
}

} // verus!
