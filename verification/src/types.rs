//! The vocabulary that the daemon, the control centre and the telemetry share.
use vstd::prelude::*;

verus! {

/// A fan of the laptop.
#[derive(Clone, Copy, PartialEq, Eq, Debug, Structural)]
pub enum FanIndex {
    Cpu,
    Gpu,
}

/// How a fan is driven.
#[derive(Clone, Copy, PartialEq, Eq, Debug, Structural)]
pub enum FanMode {
    /// The controller's own temperature table.
    Auto,
    Full,
    /// Beyond the usual limits.
    Turbo,
    /// A fixed duty cycle.
    Custom(u8),
}

impl Default for FanMode {
    fn default() -> (mode: Self)
        ensures
            mode == FanMode::Auto,
    {
        FanMode::Auto
    }
}

#[derive(Clone, Copy, PartialEq, Eq, Debug, Structural)]
pub enum PowerProfile {
    Silent,
    Default,
    Performance,
}

impl Default for PowerProfile {
    fn default() -> (profile: Self)
        ensures
            profile == PowerProfile::Default,
    {
        PowerProfile::Default
    }
}

#[derive(Clone, Copy, PartialEq, Eq, Debug, Structural)]
pub enum KeyboardBacklightLevel {
    Off,
    Low,
    Medium,
    High,
    Custom(u8),
}

impl Default for KeyboardBacklightLevel {
    fn default() -> (level: Self)
        ensures
            level == KeyboardBacklightLevel::Off,
    {
        KeyboardBacklightLevel::Off
    }
}

/// The breathing patterns of the rear LED ring.
#[derive(Clone, Copy, PartialEq, Eq, Debug, Structural)]
pub enum BreathConfig {
    Smooth,
    Sleep,
    Alert,
    Zen,
    Ping,
    Energetic,
    Warning,
    Vacuum,
    Panic,
    Sonar,
}

#[derive(Clone, Copy, PartialEq, Eq, Debug, Structural)]
pub enum PowerLedMode {
    Auto,
    Custom(u8),
    Animation(BreathConfig),
}

impl Default for PowerLedMode {
    fn default() -> (mode: Self)
        ensures
            mode == PowerLedMode::Auto,
    {
        PowerLedMode::Auto
    }
}

/// Charge levels, in percent, between which the battery is kept.
#[derive(Clone, Copy, PartialEq, Eq, Debug, Structural)]
pub struct ChargeRange {
    pub min: u8,
    pub max: u8,
}

/// What the user wants of the battery.
#[derive(Clone, Copy, PartialEq, Eq, Debug, Structural)]
pub enum ChargeIntent {
    Full,
    /// Keep the battery between thresholds, or as the firmware does where none are given.
    Preserve(Option<ChargeRange>),
    Freeze,
}

impl Default for ChargeIntent {
    fn default() -> (intent: Self)
        ensures
            intent == ChargeIntent::Full,
    {
        ChargeIntent::Full
    }
}

/// The pair of charge thresholds that the controller keeps.
#[derive(Clone, Copy, PartialEq, Eq, Debug, Structural)]
pub struct ChargeLimit {
    pub min: u8,
    pub max: u8,
}

impl ChargeLimit {
    /// The thresholds, in percent, at which charging starts and stops.
    pub fn as_percent(&self) -> (percent: (u8, u8))
        ensures
            percent == (self.min, self.max),
    {
        (self.min, self.max)
    }
}

/// What the daemon remembers from one start to the next.
#[derive(Clone, Copy, PartialEq, Eq, Debug, Structural)]
pub struct CurrentSettings {
    pub fan_mode_cpu: FanMode,
    pub fan_mode_gpu: FanMode,
    pub power_profile: PowerProfile,
    pub keyboard_backlight: KeyboardBacklightLevel,
    pub led_mode: PowerLedMode,
    pub charge_limit: ChargeLimit,
    pub charge: ChargeIntent,
    pub telemetry_enabled: bool,
    pub telemetry_client_id: u64,
}

/// The settings of a machine that has none yet.
pub open spec fn default_settings() -> CurrentSettings {
    CurrentSettings {
        fan_mode_cpu: FanMode::Auto,
        fan_mode_gpu: FanMode::Auto,
        power_profile: PowerProfile::Default,
        keyboard_backlight: KeyboardBacklightLevel::Off,
        led_mode: PowerLedMode::Auto,
        charge_limit: ChargeLimit { min: 0, max: 100 },
        charge: ChargeIntent::Full,
        telemetry_enabled: true,
        telemetry_client_id: 0,
    }
}

impl Default for CurrentSettings {
    fn default() -> (settings: Self)
        ensures
            settings == default_settings(),
    {
        CurrentSettings {
            fan_mode_cpu: FanMode::Auto,
            fan_mode_gpu: FanMode::Auto,
            power_profile: PowerProfile::Default,
            keyboard_backlight: KeyboardBacklightLevel::Off,
            led_mode: PowerLedMode::Auto,
            charge_limit: ChargeLimit { min: 0, max: 100 },
            charge: ChargeIntent::Full,
            telemetry_enabled: true,
            telemetry_client_id: 0,
        }
    }
}

/// What a temperature sensor measures.
#[derive(Clone, Copy, PartialEq, Eq, Debug, Structural)]
pub enum SensorRole {
    Cpu,
    Sys,
}

#[derive(Clone, Copy, PartialEq, Eq, Debug, Structural)]
pub struct FanCaps {
    pub index: FanIndex,
    /// The largest duty cycle that may be asked for.
    pub duty_max: u8,
}

#[derive(Clone, Copy, PartialEq, Eq, Debug, Structural)]
pub struct KbdCaps {
    pub on_off: bool,
    pub levels: bool,
    pub custom: bool,
}

#[derive(Clone, Copy, PartialEq, Eq, Debug, Structural)]
pub struct LedCaps {
    pub on_off: bool,
    pub brightness: bool,
    pub animation: bool,
}

/// What the board can do for the battery.
#[derive(Clone, PartialEq, Eq, Debug)]
pub struct ChargeCaps {
    pub supported: bool,
    /// The bounds of user-chosen thresholds, where the board takes them.
    pub custom_range: Option<(u8, u8)>,
    pub presets: Vec<(String, ChargeIntent)>,
    /// The thresholds of the firmware's own protection, where it has one.
    pub preserve_fixed: Option<(u8, u8)>,
    /// The charge levels between which charging can be frozen, where it can.
    pub freeze_soc: Option<(u8, u8)>,
}

/// What the board can do at all.
#[derive(Clone, PartialEq, Eq, Debug)]
pub struct Capabilities {
    pub board: String,
    pub daemon_version: String,
    pub fans: Vec<FanCaps>,
    pub sensors: Vec<SensorRole>,
    pub power_profiles: Vec<PowerProfile>,
    pub kbd: KbdCaps,
    pub led: LedCaps,
    pub battery_leds: bool,
    pub charge: ChargeCaps,
}

#[derive(Clone, PartialEq, Eq, Debug)]
pub struct ChargeStatus {
    pub desired: ChargeIntent,
    pub effective: ChargeIntent,
    /// State of charge, in percent.
    pub soc: u8,
    /// Why the desired intent is not in effect yet.
    pub pending: Option<String>,
    pub thresholds: Option<(u8, u8)>,
}

#[derive(Clone, PartialEq, Eq, Debug)]
pub struct SystemInfo {
    pub chip: String,
    pub revision: String,
    pub hram_offset: u16,
    pub daemon_version: String,
}

#[derive(Clone, Copy, PartialEq, Eq, Debug, Structural)]
pub enum ErrorCode {
    Internal,
    UnsupportedRequest,
    UnsupportedHardware,
    Precondition,
}

/// The board that the daemon found and does not know.
#[derive(Clone, PartialEq, Eq, Debug)]
pub struct UnsupportedInfo {
    pub board: String,
    pub chip: Option<String>,
}

#[derive(Clone, PartialEq, Eq, Debug)]
pub struct IpcError {
    pub code: ErrorCode,
    pub message: String,
    pub unsupported: Option<UnsupportedInfo>,
}

#[derive(Clone, Copy, PartialEq, Eq, Debug, Structural)]
pub enum DaemonCommand {
    GetCapabilities,
    GetSettings,
    ActivateTelemetry(bool),
    GetTelemetryId,
    ApplySettings,
    RestoreDefaults,
}

/// What a client asks of the daemon.
#[derive(Clone, Copy, PartialEq, Eq, Debug, Structural)]
pub enum IpcRequest {
    DaemonCommand(DaemonCommand),
    GetSystemState,
    GetTemperatures,
    GetFansRPM,
    GetChargeStatus,
    GetPowerProfile,
    GetKeyboardBacklight,
    SetFanMode { fan: FanIndex, mode: FanMode },
    SetPowerProfile(PowerProfile),
    SetChargeIntent(ChargeIntent),
    SetKeyboardBacklight(KeyboardBacklightLevel),
    SetLedMode(PowerLedMode),
}

/// What the daemon answers.
#[derive(Clone, PartialEq, Eq, Debug)]
pub enum IpcResponse {
    Success,
    Error(IpcError),
    Message(String),
    Capabilities(Box<Capabilities>),
    SystemInfo(SystemInfo),
    Settings(Box<CurrentSettings>),
    Temps { cpu_c: u8, sys_c: u8 },
    FanRpm { cpu: u16, gpu: u16 },
    ChargeStatus(ChargeStatus),
    ChargeLimit(u8, u8),
    PowerLimit(PowerProfile),
    KeyboardBacklight(KeyboardBacklightLevel),
    TelemetryDisabledInfo,
    TelemetryId(u64),
}

/// How the charging of an N161A stands.
#[derive(Clone, Copy, PartialEq, Eq, Debug, Structural)]
pub enum NativeChargeHoldStatus {
    Unsupported,
    Normal { rsoc: u8 },
    Holding { rsoc: u8 },
    NativeProtection { rsoc: u8 },
}

/// A machine without settings runs its fans by itself, has every light off or automatic, charges
/// fully, and reports to telemetry under no name.
pub proof fn law_default_settings()
    ensures
        default_settings().fan_mode_cpu is Auto && default_settings().fan_mode_gpu is Auto,
        default_settings().power_profile is Default,
        default_settings().keyboard_backlight is Off && default_settings().led_mode is Auto,
        default_settings().charge is Full,
        default_settings().charge_limit.min == 0 && default_settings().charge_limit.max == 100,
        default_settings().telemetry_enabled && default_settings().telemetry_client_id == 0,
{
}

} // verus!
