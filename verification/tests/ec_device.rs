use std::collections::HashMap;

use lecoo_control::ec::codes::{BacklightBytes, Codes};
use lecoo_control::ec::device::{
    Addr, Battery, BoardProfile, EcBatch, EcDevice, EcOffsets, EcRuntime, Sensor,
};
use lecoo_control::ec::error::EcError;
use lecoo_control::ec::fan::{apply_fan_mode, has_fans, FanSelect};
use lecoo_control::ec::flexicharger::{apply_charge_limit, read_battery_rsoc, read_charge_limit};
use lecoo_control::ec::io::{EcIo, EcReply, EcRequest};
use lecoo_control::ec::kbd_backlight::{
    apply_keyboard_backlight, backlight_byte, backlight_level, read_keyboard_backlight,
};
use lecoo_control::ec::power_profile::{apply_power_profile, read_power_profile};
use lecoo_control::fixed_map;
use lecoo_control::handlers::{self, DaemonState};
use lecoo_control::session::{Session, Stop};
use lecoo_control::types::{
    ChargeLimit, CurrentSettings, FanIndex, FanMode, IpcResponse, KeyboardBacklightLevel,
    PowerLedMode, PowerProfile, SensorRole,
};

/// A controller: its cells, the requests it has seen, and the cells that cannot be read.
struct Machine {
    cells: HashMap<u16, u8>,
    seen: Vec<EcRequest>,
    broken: Vec<u16>,
    chip: Option<(u16, u8, u8, u8)>,
}

impl Machine {
    fn with(cells: &[(u16, u8)]) -> Machine {
        Machine {
            cells: cells.iter().copied().collect(),
            seen: Vec::new(),
            broken: Vec::new(),
            chip: Some((0x4E, 0x55, 0x70, 0x02)),
        }
    }

    fn perform(&mut self, request: EcRequest) -> EcReply {
        self.seen.push(request);
        match request {
            EcRequest::ReadByte(port, addr) => {
                assert_eq!(port, 0x4E);
                if self.broken.contains(&addr) {
                    EcReply::Fault(7)
                } else {
                    EcReply::Byte(self.cells.get(&addr).copied().unwrap_or(0))
                }
            }
            EcRequest::WriteByte(port, addr, val) => {
                assert_eq!(port, 0x4E);
                self.cells.insert(addr, val);
                EcReply::Done
            }
            EcRequest::ProbeChip(_) => match self.chip {
                Some((port, id1, id2, ver)) => EcReply::Chip { port, id1, id2, ver },
                None => EcReply::Fault(1),
            },
            _ => EcReply::Done,
        }
    }

    fn writes(&self) -> Vec<(u16, u8)> {
        let mut list = Vec::new();
        for request in &self.seen {
            if let EcRequest::WriteByte(_, addr, val) = request {
                list.push((*addr, *val));
            }
        }
        list
    }
}

fn run<T>(
    machine: &mut Machine,
    mut operation: impl FnMut(&mut EcIo) -> Result<T, Stop<EcError>>,
) -> Result<T, EcError> {
    let mut io: EcIo = Session::new();
    loop {
        match operation(&mut io) {
            Ok(value) => return Ok(value),
            Err(Stop::Failed(error)) => return Err(error),
            Err(Stop::Suspended) => {
                let request = *io.pending().expect("a suspended run waits for something");
                let reply = machine.perform(request);
                io.answer(reply);
            }
        }
    }
}

fn profile() -> BoardProfile {
    BoardProfile {
        id: "N155A".to_owned(),
        sensors: vec![
            Sensor { role: SensorRole::Sys, addr: Addr::Ram(0x71) },
            Sensor { role: SensorRole::Cpu, addr: Addr::Ram(0x70) },
        ],
        battery: Some(Battery { rsoc: Addr::Ram(0x92) }),
        hram_candidates: vec![0xC400, 0xD000],
        offsets: EcOffsets {
            ram_thermal_policy_cpu: 0x4F,
            ram_thermal_policy_gpu: 0x4E,
            ram_bat_limit_min: 0xA1,
            ram_bat_limit_max: 0xA2,
            ram_bat_rsoc: 0x92,
            ram_power_profile: 0x31,
            n161a_native_charge_hold: false,
        },
    }
}

/// The numbers of the fans and of the backlight levels.
const CODES: Codes = Codes {
    fan_cpu: 0x5A,
    fan_gpu: 0x5B,
    backlight: BacklightBytes { off: 0x00, low: 0x40, medium: 0x80, high: 0xFF },
};

fn device(profile: &BoardProfile) -> EcDevice<'_> {
    EcDevice {
        profile,
        rt: EcRuntime { port: 0x4E, hram_offset: 0xD000, chip_id1: 0x55, chip_id2: 0x70, chip_ver: 2 },
    }
}

#[test]
fn device_finds_its_only_window() {
    let board = profile();
    let mut machine = Machine::with(&[(0xC470, 0), (0xD070, 47)]);
    let found = run(&mut machine, |io| EcDevice::new_with_profile(&board, false, io)).unwrap();
    assert_eq!(found.hram_offset(), 0xD000);
    assert_eq!(found.rt.port, 0x4E);
    assert_eq!((found.rt.chip_id1, found.rt.chip_id2, found.rt.chip_ver), (0x55, 0x70, 0x02));
    assert!(machine.writes().is_empty());
}

#[test]
fn charge_breaks_a_tie_between_windows() {
    let board = profile();
    let mut machine =
        Machine::with(&[(0xC470, 50), (0xD070, 47), (0xC492, 101), (0xD092, 100)]);
    let found = run(&mut machine, |io| EcDevice::new_with_profile(&board, false, io)).unwrap();
    assert_eq!(found.hram_offset(), 0xD000);
}

#[test]
fn the_first_window_wins_an_unbroken_tie() {
    let board = profile();
    let mut machine =
        Machine::with(&[(0xC470, 50), (0xD070, 47), (0xC492, 101), (0xD092, 255)]);
    let found = run(&mut machine, |io| EcDevice::new_with_profile(&board, false, io)).unwrap();
    assert_eq!(found.hram_offset(), 0xC400);
}

#[test]
fn an_unreadable_window_is_passed_over() {
    let board = profile();
    let mut machine = Machine::with(&[(0xC470, 50), (0xD070, 47)]);
    machine.broken.push(0xC470);
    let found = run(&mut machine, |io| EcDevice::new_with_profile(&board, false, io)).unwrap();
    assert_eq!(found.hram_offset(), 0xD000);
}

#[test]
fn no_credible_window_is_an_error() {
    let board = profile();
    let mut machine = Machine::with(&[(0xC470, 0x10), (0xD070, 111)]);
    let result = run(&mut machine, |io| EcDevice::new_with_profile(&board, false, io));
    assert_eq!(result.err(), Some(EcError::HramNotFound));
}

#[test]
fn a_profile_without_a_sensor_in_memory_is_an_error() {
    let mut board = profile();
    board.sensors = vec![Sensor { role: SensorRole::Cpu, addr: Addr::Reg(0x70) }];
    let mut machine = Machine::with(&[]);
    let result = run(&mut machine, |io| EcDevice::new_with_profile(&board, false, io));
    assert_eq!(result.err(), Some(EcError::NoRamSensor));
    assert_eq!(
        EcError::NoRamSensor.message("N155A"),
        Some("Profile N155A has no RAM-based CPU sensor".to_owned())
    );
}

#[test]
fn a_board_without_a_profile_is_an_error() {
    let mut machine = Machine::with(&[]);
    let result = run(&mut machine, |io| EcDevice::new(None, false, io));
    assert_eq!(result.err(), Some(EcError::UnsupportedBoard));
    assert!(machine.seen.is_empty());
    assert_eq!(
        EcError::UnsupportedBoard.message("X1"),
        Some("Unsupported motherboard: X1".to_owned())
    );
}

#[test]
fn a_missing_chip_is_an_error() {
    let board = profile();
    let mut machine = Machine::with(&[]);
    machine.chip = None;
    let result = run(&mut machine, |io| EcDevice::new_with_profile(&board, false, io));
    assert_eq!(result.err(), Some(EcError::ChipNotFound));
}

#[test]
fn windows_that_run_over_the_address_space_do_not_fit() {
    let mut board = profile();
    assert!(board.has_fitting_windows());
    board.hram_candidates.push(0xFF90);
    assert!(!board.has_fitting_windows());
    // A single window has room for the temperature; the charge is never looked at.
    board.hram_candidates = vec![0xFF80];
    assert!(board.has_fitting_windows());
    board.hram_candidates = vec![0xFF80, 0xC400];
    assert!(!board.has_fitting_windows());
    let board = profile();
    let mut ec = device(&board);
    assert!(has_fans(&ec, &CODES, FanSelect::Both));
    ec.rt.hram_offset = 0xFFA5;
    assert!(ec.is_addressable(Addr::Ram(0x5A)) && !ec.is_addressable(Addr::Ram(0x5B)));
    assert!(ec.is_addressable(Addr::Reg(0xFFFF)));
    assert!(ec.is_addressable(Addr::Banked(0x0FFF)) && !ec.is_addressable(Addr::Banked(0x1000)));
    assert!(has_fans(&ec, &CODES, FanSelect::Cpu));
    assert!(!has_fans(&ec, &CODES, FanSelect::Gpu) && !has_fans(&ec, &CODES, FanSelect::Both));
}

#[test]
fn one_offset_out_of_reach_leaves_the_others_usable() {
    let mut board = profile();
    board.offsets.ram_bat_limit_max = 0xFFFF;
    let ec = device(&board);
    let mut machine = Machine::with(&[(0xD031, 3)]);
    assert!(!ec.is_addressable(Addr::Ram(board.offsets.ram_bat_limit_max)));
    assert_eq!(
        run(&mut machine, |io| read_power_profile(&ec, io)),
        Ok(PowerProfile::Performance)
    );
    run(&mut machine, |io| apply_fan_mode(&ec, io, &CODES, FanSelect::Cpu, FanMode::Auto)).unwrap();
    assert_eq!(machine.writes(), vec![(0xD04F, 0x00), (0xD05A, 0)]);
}

#[test]
fn fans_and_levels_go_by_the_same_numbers_on_every_board() {
    let one = profile();
    let mut other = profile();
    other.id = "N176A".to_owned();
    other.offsets.ram_thermal_policy_cpu = 0x22;
    let mut places = Vec::new();
    for board in [&one, &other] {
        let ec = device(board);
        let mut machine = Machine::with(&[]);
        run(&mut machine, |io| {
            apply_fan_mode(&ec, io, &CODES, FanSelect::Cpu, FanMode::Custom(90))
        })
        .unwrap();
        run(&mut machine, |io| {
            apply_keyboard_backlight(&ec, io, &CODES, &KeyboardBacklightLevel::Low)
        })
        .unwrap();
        places.push(machine.writes()[1..].to_vec());
    }
    assert_eq!(places[0], vec![(0xD05A, 90), (0x0F05, 0x40)]);
    assert_eq!(places[0], places[1]);
}

#[test]
fn updating_bits_keeps_the_others_and_holds_the_lock() {
    let board = profile();
    let ec = device(&board);
    let mut machine = Machine::with(&[(0xD010, 0b1010_0101)]);
    let read = run(&mut machine, |io| ec.update_bits(io, Addr::Ram(0x10), 0x0F, 0xFA)).unwrap();
    assert_eq!(read, 0b1010_1010);
    assert_eq!(
        machine.seen,
        vec![
            EcRequest::Lock,
            EcRequest::ReadByte(0x4E, 0xD010),
            EcRequest::WriteByte(0x4E, 0xD010, 0b1010_1010),
            EcRequest::ReadByte(0x4E, 0xD010),
            EcRequest::Unlock,
        ]
    );
}

#[test]
fn a_failed_access_gives_the_lock_back() {
    let board = profile();
    let ec = device(&board);
    let mut machine = Machine::with(&[]);
    machine.broken.push(0xD010);
    let result = run(&mut machine, |io| ec.update_bits(io, Addr::Ram(0x10), 1, 1));
    assert_eq!(result, Err(EcError::Fault(7)));
    assert_eq!(
        machine.seen,
        vec![EcRequest::Lock, EcRequest::ReadByte(0x4E, 0xD010), EcRequest::Unlock]
    );
    assert_eq!(EcError::Fault(7).message("N155A"), None);
}

#[test]
fn addresses_are_resolved() {
    let board = profile();
    let ec = device(&board);
    let mut machine = Machine::with(&[(0x1234, 9)]);
    assert_eq!(run(&mut machine, |io| ec.read(io, Addr::Reg(0x1234))), Ok(9));
    run(&mut machine, |io| ec.write(io, Addr::Ram(5), 77)).unwrap();
    assert_eq!(machine.cells[&0xD005], 77);
}

#[test]
fn full_speed_drives_both_fans_in_one_group() {
    let board = profile();
    let ec = device(&board);
    let mut machine = Machine::with(&[]);
    run(&mut machine, |io| apply_fan_mode(&ec, io, &CODES, FanSelect::Both, FanMode::Full)).unwrap();
    assert_eq!(
        machine.writes(),
        vec![(0xD04F, 0x40), (0xD04E, 0x40), (0xD05A, 150), (0xD05B, 150)]
    );
    assert_eq!(machine.seen.first(), Some(&EcRequest::Lock));
    assert_eq!(machine.seen.last(), Some(&EcRequest::Unlock));
    assert_eq!(machine.seen.len(), 6);
}

#[test]
fn automatic_fans_get_no_duty() {
    let board = profile();
    let ec = device(&board);
    let mut machine = Machine::with(&[]);
    run(&mut machine, |io| apply_fan_mode(&ec, io, &CODES, FanSelect::Cpu, FanMode::Auto)).unwrap();
    assert_eq!(machine.writes(), vec![(0xD04F, 0), (0xD05A, 0)]);
}

#[test]
fn duty_is_limited() {
    let board = profile();
    let ec = device(&board);
    let mut machine = Machine::with(&[]);
    run(&mut machine, |io| apply_fan_mode(&ec, io, &CODES, FanSelect::Gpu, FanMode::Custom(220))).unwrap();
    assert_eq!(machine.writes(), vec![(0xD04E, 0x40), (0xD05B, 220)]);
    let mut machine = Machine::with(&[]);
    let result =
        run(&mut machine, |io| apply_fan_mode(&ec, io, &CODES, FanSelect::Gpu, FanMode::Custom(221)));
    assert_eq!(result, Err(EcError::DutyTooHigh(221)));
    assert!(machine.seen.is_empty());
    assert_eq!(
        EcError::DutyTooHigh(221).message(""),
        Some("Requested fan duty cycle (221) exceeds safe limit (220).".to_owned())
    );
}

#[test]
fn charge_limits_are_read_back() {
    let board = profile();
    let ec = device(&board);
    let mut machine = Machine::with(&[(0xD092, 64)]);
    let limit = ChargeLimit { min: 60, max: 80 };
    run(&mut machine, |io| apply_charge_limit(&ec, io, &limit)).unwrap();
    assert_eq!(run(&mut machine, |io| read_charge_limit(&ec, io)), Ok((60, 80)));
    assert_eq!(run(&mut machine, |io| read_battery_rsoc(&ec, io)), Ok(64));
}

#[test]
fn power_profiles_are_read_back() {
    let board = profile();
    let ec = device(&board);
    let mut machine = Machine::with(&[]);
    for (wanted, byte) in
        [(PowerProfile::Silent, 1), (PowerProfile::Default, 2), (PowerProfile::Performance, 3)]
    {
        run(&mut machine, |io| apply_power_profile(&ec, io, &wanted)).unwrap();
        assert_eq!(machine.cells[&0xD031], byte);
        assert_eq!(run(&mut machine, |io| read_power_profile(&ec, io)), Ok(wanted));
    }
    machine.cells.insert(0xD031, 9);
    assert_eq!(
        run(&mut machine, |io| read_power_profile(&ec, io)),
        Err(EcError::UnknownPowerProfile(9))
    );
    assert_eq!(
        EcError::UnknownPowerProfile(9).message(""),
        Some("Unknown power profile: 9".to_owned())
    );
}

#[test]
fn backlight_register_depends_on_the_window() {
    let board = profile();
    let mut ec = device(&board);
    let mut machine = Machine::with(&[(0x0F05, 33)]);
    run(&mut machine, |io| apply_keyboard_backlight(&ec, io, &CODES, &KeyboardBacklightLevel::High)).unwrap();
    assert_eq!(machine.writes(), vec![(0x0F05, 0xFF)]);
    assert_eq!(run(&mut machine, |io| read_keyboard_backlight(&ec, io)), Ok(0xFF));
    ec.rt.hram_offset = 0xC400;
    let mut machine = Machine::with(&[]);
    run(&mut machine, |io| apply_keyboard_backlight(&ec, io, &CODES, &KeyboardBacklightLevel::Custom(12)))
        .unwrap();
    assert_eq!(machine.writes(), vec![(0xCF05, 12)]);
}

// ---- Handlers ----

#[test]
fn state_is_loaded_or_made() {
    assert_eq!(DaemonState::load_or_default(None).settings, CurrentSettings::default());
    let kept = CurrentSettings { telemetry_client_id: 9, ..CurrentSettings::default() };
    assert_eq!(DaemonState::load_or_default(Some(kept)).settings, kept);
}

#[test]
fn getters_answer_with_what_was_read() {
    let board = profile();
    let ec = device(&board);
    let mut machine =
        Machine::with(&[(0xD0A1, 20), (0xD0A2, 90), (0xD031, 3), (0x0F05, 0x80)]);
    assert_eq!(
        run(&mut machine, |io| handlers::get_charge_limit(&ec, io)),
        Ok(IpcResponse::ChargeLimit(20, 90))
    );
    assert_eq!(
        run(&mut machine, |io| handlers::get_power_profile(&ec, io)),
        Ok(IpcResponse::PowerLimit(PowerProfile::Performance))
    );
    assert_eq!(
        run(&mut machine, |io| handlers::get_keyboard_backlight(&ec, io, &CODES)),
        Ok(IpcResponse::KeyboardBacklight(KeyboardBacklightLevel::Medium))
    );
    assert_eq!(
        handlers::get_system_state(Ok((0x55, 0x70, 0x02))),
        Ok(IpcResponse::Message("Controller: IT5570 (Rev 02)".to_owned()))
    );
    assert_eq!(handlers::get_system_state(Err(EcError::Fault(3))), Err(EcError::Fault(3)));
    assert_eq!(
        handlers::get_fans_rpm(Ok((2345, 1987))),
        Ok(IpcResponse::FanRpm { cpu: 2345, gpu: 1987 })
    );
    assert_eq!(
        handlers::get_temperatures(Ok((63, 41))),
        Ok(IpcResponse::Temps { cpu_c: 63, sys_c: 41 })
    );
    assert_eq!(handlers::get_temperatures(Err(EcError::Fault(3))), Err(EcError::Fault(3)));
}

#[test]
fn setters_remember_and_apply() {
    let board = profile();
    let ec = device(&board);
    let mut machine = Machine::with(&[]);
    let mut state = DaemonState::load_or_default(None);
    assert_eq!(
        run(&mut machine, |io| handlers::set_fan_mode(
            &ec,
            io,
            &CODES,
            &mut state,
            &FanIndex::Gpu,
            &FanMode::Custom(7)
        )),
        Ok(IpcResponse::Success)
    );
    assert_eq!(state.settings.fan_mode_gpu, FanMode::Custom(7));
    assert_eq!(state.settings.fan_mode_cpu, FanMode::Auto);
    let limit = ChargeLimit { min: 55, max: 66 };
    run(&mut machine, |io| handlers::set_charge_limit(&ec, io, &mut state, &limit)).unwrap();
    assert_eq!(state.settings.charge_limit, limit);
    run(&mut machine, |io| handlers::set_keyboard_backlight(
        &ec,
        io,
        &CODES,
        &mut state,
        &KeyboardBacklightLevel::Low
    ))
    .unwrap();
    assert_eq!(state.settings.keyboard_backlight, KeyboardBacklightLevel::Low);
    run(&mut machine, |io| handlers::set_power_profile(
        &ec,
        io,
        &mut state,
        &PowerProfile::Silent
    ))
    .unwrap();
    assert_eq!(state.settings.power_profile, PowerProfile::Silent);
    assert_eq!(
        machine.writes(),
        vec![(0xD04E, 0x40), (0xD05B, 7), (0xD0A1, 55), (0xD0A2, 66), (0x0F05, 0x40), (0xD031, 1)]
    );
}

#[test]
fn a_refused_mode_is_remembered_all_the_same() {
    let board = profile();
    let ec = device(&board);
    let mut machine = Machine::with(&[]);
    let mut state = DaemonState::load_or_default(None);
    assert_eq!(
        run(&mut machine, |io| handlers::set_fan_mode(
            &ec,
            io,
            &CODES,
            &mut state,
            &FanIndex::Cpu,
            &FanMode::Custom(255)
        )),
        Err(EcError::DutyTooHigh(255))
    );
    assert_eq!(state.settings.fan_mode_cpu, FanMode::Custom(255));
    assert!(machine.seen.is_empty());
}

#[test]
fn led_mode_is_remembered() {
    let mut state = DaemonState::load_or_default(None);
    assert_eq!(
        handlers::set_led_mode(&mut state, &PowerLedMode::Custom(5), Ok(())),
        Ok(IpcResponse::Success)
    );
    assert_eq!(state.settings.led_mode, PowerLedMode::Custom(5));
}

#[test]
fn fixed_map_locks_each_write() {
    let board = profile();
    let ec = device(&board);
    let mut machine = Machine::with(&[]);
    assert_eq!(
        run(&mut machine, |io| fixed_map::set_fan_mode(&ec, io, &CODES, &FanIndex::Cpu, &FanMode::Full)),
        Ok(IpcResponse::Success)
    );
    assert_eq!(
        machine.seen,
        vec![
            EcRequest::Lock,
            EcRequest::WriteByte(0x4E, 0xD04F, 0x40),
            EcRequest::Unlock,
            EcRequest::Lock,
            EcRequest::WriteByte(0x4E, 0xD05A, 150),
            EcRequest::Unlock,
        ]
    );
    let mut machine = Machine::with(&[]);
    let result = run(&mut machine, |io| fixed_map::set_fan_mode(
        &ec,
        io,
        &CODES,
        &FanIndex::Gpu,
        &FanMode::Custom(230)
    ));
    assert_eq!(result, Err(EcError::DutyDangerous));
    assert!(machine.seen.is_empty());
    run(&mut machine, |io| fixed_map::set_keyboard_backlight(
        &ec,
        io,
        &CODES,
        &KeyboardBacklightLevel::Medium
    ))
    .unwrap();
    assert_eq!(
        run(&mut machine, |io| fixed_map::get_keyboard_backlight(&ec, io, &CODES)),
        Ok(IpcResponse::KeyboardBacklight(KeyboardBacklightLevel::Medium))
    );
    assert_eq!(machine.cells[&0xCF05], 0x80);
}

#[test]
fn the_register_is_answered_as_a_level() {
    let board = profile();
    let ec = device(&board);
    for (byte, level) in [
        (0x00, KeyboardBacklightLevel::Off),
        (0x40, KeyboardBacklightLevel::Low),
        (0x80, KeyboardBacklightLevel::Medium),
        (0xFF, KeyboardBacklightLevel::High),
        (0x41, KeyboardBacklightLevel::Custom(0x41)),
    ] {
        let mut machine = Machine::with(&[(0x0F05, byte), (0xCF05, byte)]);
        let answer = Ok(IpcResponse::KeyboardBacklight(level));
        assert_eq!(run(&mut machine, |io| handlers::get_keyboard_backlight(&ec, io, &CODES)), answer);
        assert_eq!(run(&mut machine, |io| fixed_map::get_keyboard_backlight(&ec, io, &CODES)), answer);
        assert_eq!(backlight_level(&CODES.backlight, byte), level);
        assert_eq!(backlight_byte(&CODES.backlight, level), byte);
    }
}

#[test]
fn a_group_asks_for_its_bytes_on_the_port_of_its_chip() {
    let board = profile();
    let rt = EcRuntime { port: 0x6E, hram_offset: 0xD000, chip_id1: 0x55, chip_id2: 0x70, chip_ver: 2 };
    let batch = EcBatch { rt, profile: &board };
    let mut io: EcIo = Session::new();
    assert_eq!(batch.write_abs(&mut io, 0xC405, 0x7F), Err(Stop::Suspended));
    assert_eq!(io.pending(), Some(&EcRequest::WriteByte(0x6E, 0xC405, 0x7F)));
    let mut io: EcIo = Session::new();
    assert_eq!(batch.read(&mut io, Addr::Ram(0x10)), Err(Stop::Suspended));
    assert_eq!(io.pending(), Some(&EcRequest::ReadByte(0x6E, 0xD010)));
}
