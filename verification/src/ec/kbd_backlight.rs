//! The keyboard backlight.
use vstd::prelude::*;

use super::codes::{BacklightBytes, Codes};
use super::device::{read_run, write_run, Addr, EcDevice};
use super::error::EcError;
use super::io::{
    law_a_write_is_the_last_word, written, EcIo, EcReply, EcRequest, EcRun, EcTalk,
};
use crate::session::Stop;
use crate::types::KeyboardBacklightLevel;

verus! {

pub const KEYBOARD_BACKLIGHT_REG: u16 = 0x0F05;

/// The byte of a level.
pub open spec fn level_byte(bytes: BacklightBytes, level: KeyboardBacklightLevel) -> u8 {
    match level {
        KeyboardBacklightLevel::Off => bytes.off,
        KeyboardBacklightLevel::Low => bytes.low,
        KeyboardBacklightLevel::Medium => bytes.medium,
        KeyboardBacklightLevel::High => bytes.high,
        KeyboardBacklightLevel::Custom(value) => value,
    }
}

/// The byte that the backlight register holds for a level.
pub fn backlight_byte(bytes: &BacklightBytes, level: KeyboardBacklightLevel) -> (byte: u8)
    ensures
        byte == level_byte(*bytes, level),
{
    match level {
        KeyboardBacklightLevel::Off => bytes.off,
        KeyboardBacklightLevel::Low => bytes.low,
        KeyboardBacklightLevel::Medium => bytes.medium,
        KeyboardBacklightLevel::High => bytes.high,
        KeyboardBacklightLevel::Custom(value) => value,
    }
}

/// The level that a byte stands for: the first fixed level with that byte, or else the byte as a
/// level of its own.
pub open spec fn level_of(bytes: BacklightBytes, byte: u8) -> KeyboardBacklightLevel {
    if byte == bytes.off {
        KeyboardBacklightLevel::Off
    } else if byte == bytes.low {
        KeyboardBacklightLevel::Low
    } else if byte == bytes.medium {
        KeyboardBacklightLevel::Medium
    } else if byte == bytes.high {
        KeyboardBacklightLevel::High
    } else {
        KeyboardBacklightLevel::Custom(byte)
    }
}

/// The level that the byte of the backlight register stands for.
pub fn backlight_level(bytes: &BacklightBytes, byte: u8) -> (level: KeyboardBacklightLevel)
    ensures
        level == level_of(*bytes, byte),
{
    if byte == bytes.off {
        KeyboardBacklightLevel::Off
    } else if byte == bytes.low {
        KeyboardBacklightLevel::Low
    } else if byte == bytes.medium {
        KeyboardBacklightLevel::Medium
    } else if byte == bytes.high {
        KeyboardBacklightLevel::High
    } else {
        KeyboardBacklightLevel::Custom(byte)
    }
}

/// The level of a byte that was read is written as that byte again.
pub proof fn law_backlight_byte_round_trip(bytes: BacklightBytes, byte: u8)
    ensures
        level_byte(bytes, level_of(bytes, byte)) == byte,
{
}

/// The register that is written: with the memory window at 0xC400 it lies in that bank.
pub open spec fn backlight_register(hram: u16) -> u16 {
    if hram == 0xC400 {
        0xCF05
    } else {
        KEYBOARD_BACKLIGHT_REG
    }
}

/// Reading the backlight register.
pub open spec fn register_run(d: EcTalk, ec: EcDevice) -> EcRun<u8> {
    read_run(d, ec.rt.port, KEYBOARD_BACKLIGHT_REG)
}

/// Setting the backlight.
pub open spec fn backlight_run(
    d: EcTalk,
    ec: EcDevice,
    codes: Codes,
    level: KeyboardBacklightLevel,
) -> EcRun<()> {
    write_run(
        d,
        ec.rt.port,
        backlight_register(ec.rt.hram_offset),
        level_byte(codes.backlight, level),
    )
}

/// Reads the backlight register.
pub fn read_keyboard_backlight(ec: &EcDevice, io: &mut EcIo) -> (result: Result<
    u8,
    Stop<EcError>,
>)
    ensures
        (final(io)@, result) == register_run(old(io)@, *ec),
{
    ec.read(io, Addr::Reg(KEYBOARD_BACKLIGHT_REG))
}

/// Sets the backlight.
pub fn apply_keyboard_backlight(
    ec: &EcDevice,
    io: &mut EcIo,
    codes: &Codes,
    level: &KeyboardBacklightLevel,
) -> (result: Result<(), Stop<EcError>>)
    ensures
        (final(io)@, result) == backlight_run(old(io)@, *ec, *codes, *level),
{
    let mut addr: u16 = KEYBOARD_BACKLIGHT_REG;
    if ec.hram_offset() == 0xC400 {
        addr = addr + 0xC000;
    }
    ec.write(io, Addr::Reg(addr), backlight_byte(&codes.backlight, *level))
}

/// Each fixed level has its byte, a custom level is its own byte, and where the fixed bytes differ the
/// level that was written is the level that is read.
pub proof fn law_backlight_level_round_trip(bytes: BacklightBytes, level: KeyboardBacklightLevel)
    ensures
        level is Off ==> level_byte(bytes, level) == bytes.off,
        level is Low ==> level_byte(bytes, level) == bytes.low,
        level is Medium ==> level_byte(bytes, level) == bytes.medium,
        level is High ==> level_byte(bytes, level) == bytes.high,
        level matches KeyboardBacklightLevel::Custom(value) ==> level_byte(bytes, level) == value,
        bytes.off != bytes.low && bytes.off != bytes.medium && bytes.off != bytes.high && bytes.low
            != bytes.medium && bytes.low != bytes.high && bytes.medium != bytes.high && !(
        level is Custom) ==> level_of(bytes, level_byte(bytes, level)) == level,
{
}

/// A byte is read as a level of its own only if no fixed level has it; where several have it, the
/// darkest one is read.
pub proof fn law_fixed_levels_come_first(bytes: BacklightBytes, byte: u8)
    ensures
        level_of(bytes, byte) is Custom <==> byte != bytes.off && byte != bytes.low && byte
            != bytes.medium && byte != bytes.high,
        level_of(bytes, byte) matches KeyboardBacklightLevel::Custom(value) ==> value == byte,
        byte == bytes.off ==> level_of(bytes, byte) is Off,
        byte == bytes.low && byte != bytes.off ==> level_of(bytes, byte) is Low,
        byte == bytes.medium && byte != bytes.off && byte != bytes.low ==> level_of(
            bytes,
            byte,
        ) is Medium,
{
}

/// The register that is written ends in 0xF05 in every bank, and lies in the bank of the memory window
/// only where that begins at 0xC400.
pub proof fn law_the_backlight_register(hram: u16)
    ensures
        backlight_register(hram) % 0x1000 == 0xF05,
        hram == 0xC400 <==> backlight_register(hram) == 0xCF05,
        hram != 0xC400 <==> backlight_register(hram) == 0x0F05,
{
}

/// Setting the backlight puts the byte of the level into the register, 0xCF05 with the memory window at
/// 0xC400 and 0x0F05 otherwise, and touches no other cell.
pub proof fn law_setting_the_backlight_writes_one_byte(
    d: EcTalk,
    ec: EcDevice,
    codes: Codes,
    level: KeyboardBacklightLevel,
    cells: Map<u16, u8>,
)
    requires
        0 <= d.used,
        d.used + 3 <= d.replies.len(),
        forall|k: int| d.used <= k < d.used + 3 ==> d.replies[k] == EcReply::Done,
    ensures
        ({
            let (end, result) = backlight_run(d, ec, codes, level);
            let kept = written(cells, end.asked, d.asked.len() as int);
            let register: u16 = if ec.rt.hram_offset == 0xC400 { 0xCF05 } else { 0x0F05 };
            &&& result is Ok
            &&& kept.dom() == cells.dom().insert(register)
            &&& kept[register] == match level {
                KeyboardBacklightLevel::Off => codes.backlight.off,
                KeyboardBacklightLevel::Low => codes.backlight.low,
                KeyboardBacklightLevel::Medium => codes.backlight.medium,
                KeyboardBacklightLevel::High => codes.backlight.high,
                KeyboardBacklightLevel::Custom(value) => value,
            }
            &&& forall|addr: u16| addr != register ==> #[trigger] kept[addr] == cells[addr]
            &&& end.asked.len() == d.asked.len() + 3
            &&& end.asked[d.asked.len() as int + 1] matches EcRequest::WriteByte(port, _, _) && port
                == ec.rt.port
        }),
{
    let register = backlight_register(ec.rt.hram_offset);
    let val = level_byte(codes.backlight, level);
    let start = d.asked.len() as int;
    let write = EcRequest::WriteByte(ec.rt.port, register, val);
    law_a_write_is_the_last_word(cells, d.asked, start, EcRequest::Lock);
    law_a_write_is_the_last_word(cells, d.asked.push(EcRequest::Lock), start, write);
    law_a_write_is_the_last_word(
        cells,
        d.asked.push(EcRequest::Lock).push(write),
        start,
        EcRequest::Unlock,
    );
    assert(backlight_run(d, ec, codes, level).0.asked =~= d.asked.push(EcRequest::Lock).push(
        write,
    ).push(EcRequest::Unlock));
}

/// The register is read at 0x0F05, wherever the memory window lies, and the byte is what it showed.
pub proof fn law_the_register_that_is_read(d: EcTalk, ec: EcDevice, byte: u8)
    requires
        0 <= d.used,
        d.used + 3 <= d.replies.len(),
        d.replies[d.used] == EcReply::Done,
        d.replies[d.used + 1] == EcReply::Byte(byte),
        d.replies[d.used + 2] == EcReply::Done,
    ensures
        register_run(d, ec).1 == Ok::<u8, Stop<EcError>>(byte),
        register_run(d, ec).0.asked == d.asked + seq![
            EcRequest::Lock,
            EcRequest::ReadByte(ec.rt.port, 0x0F05),
            EcRequest::Unlock,
        ],
{
}

} // verus!
