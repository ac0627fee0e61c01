use std::collections::HashMap;

use lecoo_control::ec::device::{
    Addr, BoardProfile, EcDevice, EcOffsets, EcRuntime, Sensor,
};
use lecoo_control::ec::error::EcError;
use lecoo_control::ec::io::{EcIo, EcReply, EcRequest, SavedMode};
use lecoo_control::ec::n161a_charge_hold::{
    enable_native_charge_hold, enable_native_charge_protection, hold_target, load_saved_state,
    parse_saved_state, read_native_charge_hold, resume_native_charging, save_original_policy,
    SavedState,
};
use lecoo_control::session::{Session, Stop};
use lecoo_control::types::{NativeChargeHoldStatus, SensorRole};

const POLICY: u16 = 0x0414;
const RSOC: u16 = 0x050F;
const TARGET: u16 = 0x05D4;
const READBACK: u16 = 0x05E4;

/// An N161A: its cells, its restore file, and a clock that only sleeping moves.
struct Laptop {
    cells: HashMap<u16, u8>,
    file: Option<String>,
    now: u64,
    deadline: u64,
    seen: Vec<EcRequest>,
    /// Whether the firmware stops charging once the policy says so.
    obeys: bool,
    /// Whether the restore file can be written.
    writable: bool,
}

impl Laptop {
    fn new(policy: u8, rsoc: u8, current: u8) -> Laptop {
        let cells = [(POLICY, policy), (RSOC, rsoc), (TARGET, current), (READBACK, current)];
        Laptop {
            cells: cells.into_iter().collect(),
            file: None,
            now: 0,
            deadline: 0,
            seen: Vec::new(),
            obeys: true,
            writable: true,
        }
    }

    fn perform(&mut self, request: EcRequest) -> EcReply {
        self.seen.push(request);
        match request {
            EcRequest::ReadByte(port, addr) => {
                assert_eq!(port, 0x4E);
                EcReply::Byte(self.cells.get(&addr).copied().unwrap_or(0))
            }
            EcRequest::WriteByte(port, addr, val) => {
                assert_eq!(port, 0x4E);
                self.cells.insert(addr, val);
                if addr == POLICY && self.obeys && val & 0x17 == 0x17 {
                    self.cells.insert(TARGET, 0);
                    self.cells.insert(READBACK, 0);
                }
                EcReply::Done
            }
            EcRequest::LoadState => match &self.file {
                Some(text) => EcReply::Text(text.clone()),
                None => EcReply::Fault(2),
            },
            EcRequest::SaveState { original, mode } => {
                if !self.writable {
                    return EcReply::Fault(13);
                }
                self.file = Some(save_original_policy(original, mode));
                EcReply::Done
            }
            EcRequest::StateExists => EcReply::Flag(self.file.is_some()),
            EcRequest::RemoveState => {
                self.file = None;
                EcReply::Done
            }
            EcRequest::StartTimer(ms) => {
                self.deadline = self.now + ms;
                EcReply::Done
            }
            EcRequest::TimerExpired => EcReply::Flag(self.now >= self.deadline),
            EcRequest::Sleep(ms) => {
                self.now += ms;
                EcReply::Done
            }
            _ => EcReply::Done,
        }
    }

    fn run<T>(
        &mut self,
        mut operation: impl FnMut(&mut EcIo) -> Result<T, Stop<EcError>>,
    ) -> Result<T, EcError> {
        let mut io: EcIo = Session::new();
        loop {
            match operation(&mut io) {
                Ok(value) => return Ok(value),
                Err(Stop::Failed(error)) => return Err(error),
                Err(Stop::Suspended) => {
                    let request = *io.pending().expect("a suspended run waits for something");
                    let reply = self.perform(request);
                    io.answer(reply);
                }
            }
        }
    }

    fn writes(&self) -> Vec<(u16, u8)> {
        let mut list = Vec::new();
        for request in &self.seen {
            if let EcRequest::WriteByte(_, addr, val) = request {
                list.push((*addr, *val));
            }
        }
        list
    }
}

fn board(n161a: bool) -> BoardProfile {
    BoardProfile {
        id: "N161A".to_owned(),
        sensors: vec![Sensor { role: SensorRole::Cpu, addr: Addr::Ram(0x70) }],
        battery: None,
        hram_candidates: vec![0xD000],
        offsets: EcOffsets {
            ram_thermal_policy_cpu: 0,
            ram_thermal_policy_gpu: 0,
            ram_bat_limit_min: 0,
            ram_bat_limit_max: 0,
            ram_bat_rsoc: 0,
            ram_power_profile: 0,
            n161a_native_charge_hold: n161a,
        },
    }
}

fn device(board: &BoardProfile) -> EcDevice<'_> {
    EcDevice {
        profile: board,
        rt: EcRuntime { port: 0x4E, hram_offset: 0xD000, chip_id1: 0x55, chip_id2: 0x70, chip_ver: 2 },
    }
}

#[test]
fn restore_file_has_its_three_lines() {
    assert_eq!(
        save_original_policy(0x0A, SavedMode::Hold),
        "version=1\noriginal=0A\nmode=hold\n"
    );
    assert_eq!(
        save_original_policy(0xF0, SavedMode::Native),
        "version=1\noriginal=F0\nmode=native\n"
    );
}

#[test]
fn restore_file_is_read_back() {
    for original in [0x00_u8, 0x05, 0x1F, 0x80, 0xFF] {
        for mode in [SavedMode::Hold, SavedMode::Native] {
            let text = save_original_policy(original, mode);
            assert_eq!(parse_saved_state(&text), Ok(SavedState { original, mode }));
        }
    }
}

#[test]
fn restore_file_of_the_first_version_is_a_hold() {
    let hold = |original| Ok(SavedState { original, mode: SavedMode::Hold });
    assert_eq!(parse_saved_state("05"), hold(5));
    assert_eq!(parse_saved_state("  1f\r\n"), hold(0x1F));
    assert_eq!(parse_saved_state("+a"), hold(10));
    assert_eq!(parse_saved_state("0000ff"), hold(0xFF));
}

#[test]
fn restore_file_lines_come_in_any_order_and_the_last_one_counts() {
    assert_eq!(
        parse_saved_state("mode=native\nnonsense\noriginal=01\r\noriginal=02"),
        Ok(SavedState { original: 2, mode: SavedMode::Native })
    );
}

#[test]
fn damaged_restore_files_are_refused() {
    assert_eq!(parse_saved_state("original=XY\nmode=hold"), Err(EcError::StateBadOriginal));
    assert_eq!(parse_saved_state("original=100\nmode=hold"), Err(EcError::StateBadOriginal));
    assert_eq!(parse_saved_state("original=01\nmode=other"), Err(EcError::StateUnknownMode));
    assert_eq!(parse_saved_state("original=01\nmode=hold "), Ok(SavedState {
        original: 1,
        mode: SavedMode::Hold
    }));
    assert_eq!(parse_saved_state("original=01\nmode=hold \nx"), Err(EcError::StateUnknownMode));
    assert_eq!(parse_saved_state("mode=hold"), Err(EcError::StateNoOriginal));
    assert_eq!(parse_saved_state(""), Err(EcError::StateNoOriginal));
    assert_eq!(parse_saved_state("original=01"), Err(EcError::StateNoMode));
    assert_eq!(
        EcError::StateNoMode.message(""),
        Some("native charge state has no mode".to_owned())
    );
}

#[test]
fn a_missing_restore_file_is_an_error() {
    let mut laptop = Laptop::new(0, 0, 0);
    assert_eq!(laptop.run(|io| load_saved_state(io)), Err(EcError::StateNotFound));
    laptop.file = Some("1C".to_owned());
    assert_eq!(
        laptop.run(|io| load_saved_state(io)),
        Ok(SavedState { original: 0x1C, mode: SavedMode::Hold })
    );
}

#[test]
fn targets_keep_the_other_bits() {
    assert_eq!(hold_target(0xE8, 62), Ok(0xFF));
    assert_eq!(hold_target(0xE0, 76), Ok(0xF3));
    assert_eq!(hold_target(0, 61), Err(EcError::HoldTooLow(61)));
    assert_eq!(hold_target(0, 85), Err(EcError::HoldTooHigh(85)));
}

#[test]
fn other_boards_have_no_charge_hold() {
    let board = board(false);
    let ec = device(&board);
    let mut laptop = Laptop::new(1, 70, 9);
    assert_eq!(
        laptop.run(|io| read_native_charge_hold(&ec, io)),
        Ok(NativeChargeHoldStatus::Unsupported)
    );
    assert_eq!(laptop.run(|io| enable_native_charge_hold(&ec, io)), Err(EcError::NotN161a));
    assert_eq!(laptop.run(|io| enable_native_charge_protection(&ec, io)), Err(EcError::NotN161a));
    assert_eq!(laptop.run(|io| resume_native_charging(&ec, io)), Err(EcError::NotN161a));
    assert!(laptop.seen.is_empty());
}

#[test]
fn hold_saves_before_it_writes_and_resume_undoes_it() {
    let board = board(true);
    let ec = device(&board);
    let mut laptop = Laptop::new(0x01, 70, 9);
    assert_eq!(laptop.run(|io| enable_native_charge_hold(&ec, io)), Ok(()));
    assert_eq!(laptop.cells[&POLICY], 0x17);
    assert_eq!(laptop.file.as_deref(), Some("version=1\noriginal=01\nmode=hold\n"));
    let saved = laptop
        .seen
        .iter()
        .position(|r| matches!(r, EcRequest::SaveState { .. }))
        .unwrap();
    let written = laptop
        .seen
        .iter()
        .position(|r| matches!(r, EcRequest::WriteByte(..)))
        .unwrap();
    assert!(saved < written);
    assert_eq!(
        laptop.run(|io| read_native_charge_hold(&ec, io)),
        Ok(NativeChargeHoldStatus::Holding { rsoc: 70 })
    );
    assert_eq!(laptop.run(|io| resume_native_charging(&ec, io)), Ok(()));
    assert_eq!(laptop.cells[&POLICY], 0x01);
    assert_eq!(laptop.file, None);
    assert_eq!(
        laptop.run(|io| read_native_charge_hold(&ec, io)),
        Ok(NativeChargeHoldStatus::Normal { rsoc: 70 })
    );
}

#[test]
fn an_active_hold_needs_no_write() {
    let board = board(true);
    let ec = device(&board);
    let mut laptop = Laptop::new(0x17, 70, 0);
    laptop.file = Some("01".to_owned());
    assert_eq!(laptop.run(|io| enable_native_charge_hold(&ec, io)), Ok(()));
    assert!(laptop.writes().is_empty());
}

#[test]
fn a_released_hold_is_armed_again() {
    let board = board(true);
    let ec = device(&board);
    let mut laptop = Laptop::new(0x13, 70, 9);
    laptop.file = Some("01".to_owned());
    assert_eq!(laptop.run(|io| enable_native_charge_hold(&ec, io)), Ok(()));
    assert_eq!(laptop.writes(), vec![(POLICY, 0x17)]);
    assert_eq!(laptop.file.as_deref(), Some("01"));
}

#[test]
fn hold_is_refused() {
    let board = board(true);
    let ec = device(&board);
    let refuse = |mut laptop: Laptop| {
        let result = laptop.run(|io| enable_native_charge_hold(&ec, io));
        assert!(laptop.writes().is_empty());
        result
    };
    assert_eq!(refuse(Laptop::new(0x13, 61, 9)), Err(EcError::HoldTooLow(61)));
    assert_eq!(refuse(Laptop::new(0x01, 85, 9)), Err(EcError::HoldTooHigh(85)));
    assert_eq!(refuse(Laptop::new(0x17, 70, 0)), Err(EcError::HoldNotOurs));
    assert_eq!(refuse(Laptop::new(0x02, 70, 9)), Err(EcError::UnknownPolicy(2)));
    assert_eq!(refuse(Laptop::new(0x01, 70, 0)), Err(EcError::HoldNeedsCharging));
    let mut native = Laptop::new(0x13, 70, 9);
    native.file = Some("original=01\nmode=native".to_owned());
    assert_eq!(refuse(native), Err(EcError::NativeActive));
    let mut torn = Laptop::new(0x13, 70, 9);
    torn.file = Some("01".to_owned());
    torn.cells.insert(READBACK, 0);
    assert_eq!(refuse(torn), Err(EcError::CurrentsDisagree));
    let mut full = Laptop::new(0x01, 70, 9);
    full.writable = false;
    assert_eq!(refuse(full), Err(EcError::Fault(13)));
    assert_eq!(
        EcError::UnknownPolicy(2).message(""),
        Some(
            "N161A policy bit1 is already set in an unrecognized state (policy 0x02)".to_owned()
        )
    );
}

#[test]
fn an_unconfirmed_hold_is_reported_after_the_deadline() {
    let board = board(true);
    let ec = device(&board);
    let mut laptop = Laptop::new(0x01, 70, 9);
    laptop.obeys = false;
    assert_eq!(laptop.run(|io| enable_native_charge_hold(&ec, io)), Err(EcError::HoldNotConfirmed));
    assert_eq!(laptop.now, 15_000);
    assert_eq!(laptop.writes(), vec![(POLICY, 0x17)]);
    assert_eq!(laptop.run(|io| resume_native_charging(&ec, io)), Ok(()));
    assert_eq!(laptop.cells[&POLICY], 0x01);
}

#[test]
fn protection_is_armed_and_undone() {
    let board = board(true);
    let ec = device(&board);
    let mut laptop = Laptop::new(0x08, 60, 9);
    assert_eq!(laptop.run(|io| enable_native_charge_protection(&ec, io)), Ok(()));
    assert_eq!(laptop.cells[&POLICY], 0x1B);
    assert_eq!(laptop.file.as_deref(), Some("version=1\noriginal=08\nmode=native\n"));
    assert_eq!(
        laptop.run(|io| read_native_charge_hold(&ec, io)),
        Ok(NativeChargeHoldStatus::NativeProtection { rsoc: 60 })
    );
    let before = laptop.writes().len();
    assert_eq!(laptop.run(|io| enable_native_charge_protection(&ec, io)), Ok(()));
    assert_eq!(laptop.writes().len(), before);
    assert_eq!(laptop.run(|io| resume_native_charging(&ec, io)), Ok(()));
    assert_eq!(laptop.cells[&POLICY], 0x08);
}

#[test]
fn protection_is_refused() {
    let board = board(true);
    let ec = device(&board);
    let refuse = |mut laptop: Laptop| {
        let result = laptop.run(|io| enable_native_charge_protection(&ec, io));
        assert!(laptop.writes().is_empty());
        result
    };
    assert_eq!(refuse(Laptop::new(0x01, 61, 9)), Err(EcError::NativeTooHigh(61)));
    assert_eq!(refuse(Laptop::new(0x01, 60, 0)), Err(EcError::NativeNeedsCharging));
    assert_eq!(refuse(Laptop::new(0x06, 60, 9)), Err(EcError::UnknownPolicy(6)));
    assert_eq!(refuse(Laptop::new(0x13, 60, 9)), Err(EcError::NativeNotOurs));
    let mut held = Laptop::new(0x17, 60, 0);
    held.file = Some("01".to_owned());
    assert_eq!(refuse(held), Err(EcError::HoldActive));
}

#[test]
fn unconfirmed_protection_is_reported_after_the_deadline() {
    let board = board(true);
    let ec = device(&board);
    let mut laptop = Laptop::new(0x04, 60, 9);
    assert_eq!(
        laptop.run(|io| enable_native_charge_protection(&ec, io)),
        Err(EcError::NativeNotConfirmed)
    );
    assert_eq!(laptop.now, 15_000);
}

#[test]
fn resuming_outside_the_modes_writes_nothing() {
    let board = board(true);
    let ec = device(&board);
    let mut laptop = Laptop::new(0x01, 70, 9);
    assert_eq!(laptop.run(|io| resume_native_charging(&ec, io)), Ok(()));
    assert!(laptop.writes().is_empty());
    let mut lost = Laptop::new(0x13, 70, 9);
    assert_eq!(lost.run(|io| resume_native_charging(&ec, io)), Err(EcError::StateNotFound));
    assert!(lost.writes().is_empty());
}
