//! The daemon's answers to requests about the hardware.
use vstd::prelude::*;

use crate::ec::codes::Codes;
use crate::ec::device::{Addr, EcDevice};
use crate::ec::error::EcError;
use crate::ec::fan::{apply_fan_mode, drive_of, drive_run, fans_fit, only, FanSelect};
use crate::ec::flexicharger::{apply_charge_limit, limit_run, read_charge_limit, thresholds_run};
use crate::ec::io::{EcIo, EcRun, EcTalk};
use crate::ec::kbd_backlight::{
    apply_keyboard_backlight, backlight_level, backlight_run, level_of, read_keyboard_backlight,
    register_run,
};
use crate::ec::power_profile::{
    apply_power_profile, current_run, read_power_profile, switch_run,
};
use crate::session::Stop;
use crate::text::{around, hex, hex_byte, hex_text, lemma_hex_byte_round_trip};
use crate::types::{
    default_settings, ChargeLimit, CurrentSettings, FanIndex, FanMode, IpcResponse,
    KeyboardBacklightLevel, PowerLedMode, PowerProfile,
};

verus! {

/// What the daemon keeps between requests.
#[derive(Clone, Copy, PartialEq, Eq, Debug, Structural)]
pub struct DaemonState {
    pub settings: CurrentSettings,
}

/// The settings that were loaded, or the default ones where there are none.
pub open spec fn remembered(loaded: Option<CurrentSettings>) -> CurrentSettings {
    match loaded {
        Some(settings) => settings,
        None => default_settings(),
    }
}

impl DaemonState {
    /// The settings that were loaded, or the default ones where there are none.
    pub fn load_or_default(loaded: Option<CurrentSettings>) -> (state: DaemonState)
        ensures
            state.settings == remembered(loaded),
    {
        let settings = match loaded {
            Some(settings) => settings,
            None => CurrentSettings::default(),
        };
        DaemonState { settings }
    }
}

// ---- Getters ----

/// `result` is what a run makes of the value that it reads: `answer` where it reads one, and its
/// stop otherwise.
pub open spec fn answers<T>(
    run: EcRun<T>,
    end: EcTalk,
    result: Result<IpcResponse, Stop<EcError>>,
    answer: spec_fn(T) -> IpcResponse,
) -> bool {
    &&& end == run.0
    &&& match run.1 {
        Ok(value) => result == Ok::<IpcResponse, Stop<EcError>>(answer(value)),
        Err(stop) => result == Err::<IpcResponse, Stop<EcError>>(stop),
    }
}

/// Answers with the charge thresholds.
pub fn get_charge_limit(ec: &EcDevice, io: &mut EcIo) -> (result: Result<
    IpcResponse,
    Stop<EcError>,
>)
    requires
        ec.rt.addressable(Addr::Ram(ec.profile.offsets.ram_bat_limit_min)),
        ec.rt.addressable(Addr::Ram(ec.profile.offsets.ram_bat_limit_max)),
    ensures
        answers(
            thresholds_run(old(io)@, *ec),
            final(io)@,
            result,
            |limit: (u8, u8)| IpcResponse::ChargeLimit(limit.0, limit.1),
        ),
{
    let (min, max) = read_charge_limit(ec, io)?;
    Ok(IpcResponse::ChargeLimit(min, max))
}

/// Answers with the power profile.
pub fn get_power_profile(ec: &EcDevice, io: &mut EcIo) -> (result: Result<
    IpcResponse,
    Stop<EcError>,
>)
    requires
        ec.rt.addressable(Addr::Ram(ec.profile.offsets.ram_power_profile)),
    ensures
        answers(
            current_run(old(io)@, *ec),
            final(io)@,
            result,
            |profile: PowerProfile| IpcResponse::PowerLimit(profile),
        ),
{
    let profile = read_power_profile(ec, io)?;
    Ok(IpcResponse::PowerLimit(profile))
}

/// Answers with the keyboard backlight, as the level that its register stands for.
pub fn get_keyboard_backlight(ec: &EcDevice, io: &mut EcIo, codes: &Codes) -> (result: Result<
    IpcResponse,
    Stop<EcError>,
>)
    ensures
        answers(
            register_run(old(io)@, *ec),
            final(io)@,
            result,
            |byte: u8|
                IpcResponse::KeyboardBacklight(level_of(codes.backlight, byte)),
        ),
{
    let byte = read_keyboard_backlight(ec, io)?;
    let level = backlight_level(&codes.backlight, byte);
    Ok(IpcResponse::KeyboardBacklight(level))
}

/// The name of the controller chip.
pub open spec fn chip_name(id1: u8, id2: u8) -> Seq<char> {
    "IT"@ + hex(id1 as nat, 2) + hex(id2 as nat, 2)
}

/// `result` tells the name and the revision of the chip, where they could be read.
pub open spec fn tells_chip(
    result: Result<IpcResponse, EcError>,
    info: Result<(u8, u8, u8), EcError>,
) -> bool {
    match info {
        Ok((id1, id2, ver)) => result matches Ok(IpcResponse::Message(text)) && text@
            == "Controller: "@ + chip_name(id1, id2) + " (Rev "@ + hex(ver as nat, 2) + ")"@,
        Err(error) => result == Err::<IpcResponse, EcError>(error),
    }
}

/// The answer with the speeds of the fans.
pub open spec fn speeds_answer(read: Result<(u16, u16), EcError>) -> Result<IpcResponse, EcError> {
    match read {
        Ok((cpu, gpu)) => Ok(IpcResponse::FanRpm { cpu, gpu }),
        Err(error) => Err(error),
    }
}

/// The answer with the temperatures.
pub open spec fn temperatures_answer(read: Result<(u8, u8), EcError>) -> Result<
    IpcResponse,
    EcError,
> {
    match read {
        Ok((cpu_c, sys_c)) => Ok(IpcResponse::Temps { cpu_c, sys_c }),
        Err(error) => Err(error),
    }
}

/// Answers with the name and the revision of the chip, where they could be read.
pub fn get_system_state(info: Result<(u8, u8, u8), EcError>) -> (result: Result<
    IpcResponse,
    EcError,
>)
    ensures
        tells_chip(result, info),
{
    let (id1, id2, ver) = info?;
    let name = around("IT", hex_text(id1 as u64, 2), hex_text(id2 as u64, 2).as_str());
    let mut text = around("Controller: ", name, " (Rev ");
    text.append(hex_text(ver as u64, 2).as_str());
    text.append(")");
    Ok(IpcResponse::Message(text))
}

/// Answers with the speeds of the fans, where they could be read.
pub fn get_fans_rpm(read: Result<(u16, u16), EcError>) -> (result: Result<IpcResponse, EcError>)
    ensures
        result == speeds_answer(read),
{
    let (cpu, gpu) = read?;
    Ok(IpcResponse::FanRpm { cpu, gpu })
}

/// Answers with the temperatures, where they could be read.
pub fn get_temperatures(read: Result<(u8, u8), EcError>) -> (result: Result<IpcResponse, EcError>)
    ensures
        result == temperatures_answer(read),
{
    let (cpu_c, sys_c) = read?;
    Ok(IpcResponse::Temps { cpu_c, sys_c })
}

// ---- Setters: the setting is remembered first, then applied ----

/// The settings with other charge thresholds.
pub open spec fn with_limit(settings: CurrentSettings, limit: ChargeLimit) -> CurrentSettings {
    CurrentSettings { charge_limit: limit, ..settings }
}

/// The settings with another keyboard backlight.
pub open spec fn with_backlight(
    settings: CurrentSettings,
    level: KeyboardBacklightLevel,
) -> CurrentSettings {
    CurrentSettings { keyboard_backlight: level, ..settings }
}

/// The settings with another power profile.
pub open spec fn with_profile(settings: CurrentSettings, profile: PowerProfile) -> CurrentSettings {
    CurrentSettings { power_profile: profile, ..settings }
}

/// The settings with another mode of the LED ring.
pub open spec fn with_ring(settings: CurrentSettings, mode: PowerLedMode) -> CurrentSettings {
    CurrentSettings { led_mode: mode, ..settings }
}

/// The answer to a request for a mode of the LED ring.
pub open spec fn ring_answer(applied: Result<(), EcError>) -> Result<IpcResponse, EcError> {
    match applied {
        Ok(()) => Ok(IpcResponse::Success),
        Err(error) => Err(error),
    }
}

/// Sets the charge thresholds.
pub fn set_charge_limit(
    ec: &EcDevice,
    io: &mut EcIo,
    state: &mut DaemonState,
    limit: &ChargeLimit,
) -> (result: Result<IpcResponse, Stop<EcError>>)
    requires
        ec.rt.addressable(Addr::Ram(ec.profile.offsets.ram_bat_limit_min)),
        ec.rt.addressable(Addr::Ram(ec.profile.offsets.ram_bat_limit_max)),
    ensures
        final(state).settings == with_limit(old(state).settings, *limit),
        answers(
            limit_run(old(io)@, *ec, *limit),
            final(io)@,
            result,
            |_done: ()| IpcResponse::Success,
        ),
{
    state.settings.charge_limit = *limit;
    apply_charge_limit(ec, io, limit)?;
    Ok(IpcResponse::Success)
}

/// Sets the keyboard backlight.
pub fn set_keyboard_backlight(
    ec: &EcDevice,
    io: &mut EcIo,
    codes: &Codes,
    state: &mut DaemonState,
    level: &KeyboardBacklightLevel,
) -> (result: Result<IpcResponse, Stop<EcError>>)
    ensures
        final(state).settings == with_backlight(old(state).settings, *level),
        answers(
            backlight_run(old(io)@, *ec, *codes, *level),
            final(io)@,
            result,
            |_done: ()| IpcResponse::Success,
        ),
{
    state.settings.keyboard_backlight = *level;
    apply_keyboard_backlight(ec, io, codes, level)?;
    Ok(IpcResponse::Success)
}

/// The settings with the mode of one fan replaced.
pub open spec fn with_fan_mode(settings: CurrentSettings, fan: FanIndex, mode: FanMode) -> CurrentSettings {
    match fan {
        FanIndex::Cpu => CurrentSettings { fan_mode_cpu: mode, ..settings },
        FanIndex::Gpu => CurrentSettings { fan_mode_gpu: mode, ..settings },
    }
}

/// Sets the mode of a fan. The mode is remembered even where it is refused.
pub fn set_fan_mode(
    ec: &EcDevice,
    io: &mut EcIo,
    codes: &Codes,
    state: &mut DaemonState,
    fan: &FanIndex,
    mode: &FanMode,
) -> (result: Result<IpcResponse, Stop<EcError>>)
    requires
        drive_of(*mode) is Ok ==> fans_fit(*ec, *codes, only(*fan)),
        !(mode is Turbo),
    ensures
        final(state).settings == with_fan_mode(old(state).settings, *fan, *mode),
        answers(
            drive_run(old(io)@, *ec, *codes, only(*fan), *mode),
            final(io)@,
            result,
            |_done: ()| IpcResponse::Success,
        ),
{
    match fan {
        FanIndex::Cpu => {
            state.settings.fan_mode_cpu = *mode;
        },
        FanIndex::Gpu => {
            state.settings.fan_mode_gpu = *mode;
        },
    }
    apply_fan_mode(ec, io, codes, FanSelect::only(*fan), *mode)?;
    Ok(IpcResponse::Success)
}

/// Sets the power profile.
pub fn set_power_profile(
    ec: &EcDevice,
    io: &mut EcIo,
    state: &mut DaemonState,
    profile: &PowerProfile,
) -> (result: Result<IpcResponse, Stop<EcError>>)
    requires
        ec.rt.addressable(Addr::Ram(ec.profile.offsets.ram_power_profile)),
    ensures
        final(state).settings == with_profile(old(state).settings, *profile),
        answers(
            switch_run(old(io)@, *ec, *profile),
            final(io)@,
            result,
            |_done: ()| IpcResponse::Success,
        ),
{
    state.settings.power_profile = *profile;
    apply_power_profile(ec, io, profile)?;
    Ok(IpcResponse::Success)
}

/// Sets the mode of the LED ring. `applied` is how applying it to the hardware went.
pub fn set_led_mode(
    state: &mut DaemonState,
    mode: &PowerLedMode,
    applied: Result<(), EcError>,
) -> (result: Result<IpcResponse, EcError>)
    ensures
        final(state).settings == with_ring(old(state).settings, *mode),
        result == ring_answer(applied),
{
    state.settings.led_mode = *mode;
    applied?;
    Ok(IpcResponse::Success)
}

// ---- What holds of the answers ----

/// A request that cannot be carried out is answered with what went wrong, and one that can with the
/// answer made of its value, whatever that is.
pub proof fn law_answers_are_of_the_value<T>(
    run: EcRun<T>,
    end: EcTalk,
    result: Result<IpcResponse, Stop<EcError>>,
    answer: spec_fn(T) -> IpcResponse,
)
    requires
        answers(run, end, result, answer),
    ensures
        end == run.0,
        result is Ok <==> run.1 is Ok,
        run.1 matches Ok(value) ==> result == Ok::<IpcResponse, Stop<EcError>>(answer(value)),
        run.1 matches Err(stop) ==> result == Err::<IpcResponse, Stop<EcError>>(stop),
{
}

/// The mode of a fan is remembered for that fan; the other fan and everything else keep theirs.
pub proof fn law_a_mode_is_remembered_for_its_fan(
    settings: CurrentSettings,
    fan: FanIndex,
    mode: FanMode,
)
    ensures
        ({
            let kept = with_fan_mode(settings, fan, mode);
            &&& fan is Cpu ==> kept.fan_mode_cpu == mode && kept.fan_mode_gpu
                == settings.fan_mode_gpu
            &&& fan is Gpu ==> kept.fan_mode_gpu == mode && kept.fan_mode_cpu
                == settings.fan_mode_cpu
            &&& kept == (CurrentSettings {
                fan_mode_cpu: kept.fan_mode_cpu,
                fan_mode_gpu: kept.fan_mode_gpu,
                ..settings
            })
        }),
{
}

/// The name of a chip is `IT` and its two bytes in base sixteen, each of which can be read back.
pub proof fn law_a_chip_name_tells_the_chip(id1: u8, id2: u8)
    ensures
        chip_name(id1, id2).len() == 6,
        chip_name(id1, id2)[0] == 'I',
        chip_name(id1, id2)[1] == 'T',
        hex_byte(chip_name(id1, id2).subrange(2, 4)) == Some(id1),
        hex_byte(chip_name(id1, id2).subrange(4, 6)) == Some(id2),
{
    reveal_strlit("IT");
    reveal_with_fuel(hex, 3);
    lemma_hex_byte_round_trip(id1);
    lemma_hex_byte_round_trip(id2);
    assert(chip_name(id1, id2).subrange(2, 4) =~= hex(id1 as nat, 2));
    assert(chip_name(id1, id2).subrange(4, 6) =~= hex(id2 as nat, 2));
}

/// A setting that is remembered takes the place of its own kind and of no other.
pub proof fn law_settings_are_remembered_in_their_place(
    settings: CurrentSettings,
    limit: ChargeLimit,
    level: KeyboardBacklightLevel,
    profile: PowerProfile,
    mode: PowerLedMode,
)
    ensures
        with_limit(settings, limit).charge_limit == limit,
        with_backlight(settings, level).keyboard_backlight == level,
        with_profile(settings, profile).power_profile == profile,
        with_ring(settings, mode).led_mode == mode,
        with_limit(with_limit(settings, limit), settings.charge_limit) == settings,
        with_backlight(with_backlight(settings, level), settings.keyboard_backlight) == settings,
        with_profile(with_profile(settings, profile), settings.power_profile) == settings,
        with_ring(with_ring(settings, mode), settings.led_mode) == settings,
{
}

/// Settings that were loaded are kept as they are.
pub proof fn law_loaded_settings_are_kept(loaded: Option<CurrentSettings>)
    ensures
        loaded matches Some(settings) ==> remembered(loaded) == settings,
        loaded is None ==> remembered(loaded) == default_settings(),
{
}

/// What was read is answered with, each number in its place, and what went wrong is passed on.
pub proof fn law_readings_are_answered_with(
    speeds: Result<(u16, u16), EcError>,
    temperatures: Result<(u8, u8), EcError>,
    applied: Result<(), EcError>,
)
    ensures
        match speeds {
            Ok((first, second)) => speeds_answer(speeds) matches Ok(IpcResponse::FanRpm { cpu, gpu })
                && cpu == first && gpu == second,
            Err(error) => speeds_answer(speeds) == Err::<IpcResponse, EcError>(error),
        },
        match temperatures {
            Ok((first, second)) => temperatures_answer(temperatures) matches Ok(
                IpcResponse::Temps { cpu_c, sys_c },
            ) && cpu_c == first && sys_c == second,
            Err(error) => temperatures_answer(temperatures) == Err::<IpcResponse, EcError>(error),
        },
        match applied {
            Ok(()) => ring_answer(applied) == Ok::<IpcResponse, EcError>(IpcResponse::Success),
            Err(error) => ring_answer(applied) == Err::<IpcResponse, EcError>(error),
        },
{
}

/// The chip is told by its name and its revision.
pub proof fn law_the_chip_is_told(
    result: Result<IpcResponse, EcError>,
    info: Result<(u8, u8, u8), EcError>,
)
    requires
        tells_chip(result, info),
    ensures
        info matches Err(error) ==> result == Err::<IpcResponse, EcError>(error),
        info matches Ok((id1, id2, ver)) ==> (result matches Ok(IpcResponse::Message(text)) && text@
            == "Controller: "@ + ("IT"@ + hex(id1 as nat, 2) + hex(id2 as nat, 2)) + " (Rev "@ + hex(
            ver as nat,
            2,
        ) + ")"@),
{
}

} // verus!
