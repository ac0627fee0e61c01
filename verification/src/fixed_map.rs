//! Handlers for the boards whose registers are at fixed places. Every write takes the lock on its
//! own.
use vstd::prelude::*;

use crate::ec::codes::Codes;
use crate::ec::device::{law_a_write_under_the_lock, read_run, write_run, Addr, EcDevice};
use crate::ec::error::EcError;
use crate::ec::fan::{drive_of, MAX_SAFE_DUTY};
use crate::ec::io::{
    law_a_write_is_the_last_word, written, EcIo, EcReply, EcRequest, EcRun, EcTalk,
};
use crate::ec::kbd_backlight::{backlight_byte, backlight_level, level_byte, level_of};
use crate::handlers::answers;
use crate::session::Stop;
use crate::types::{FanIndex, FanMode, IpcResponse, KeyboardBacklightLevel};

verus! {

pub const KEYBOARD_BACKLIGHT_REG: u16 = 0xCF05;

/// The offset of the thermal policy of a fan.
pub open spec fn policy_offset(fan: FanIndex) -> u16 {
    match fan {
        FanIndex::Cpu => 0x4F,
        FanIndex::Gpu => 0x4E,
    }
}

/// Two writes, each under a lock of its own.
pub open spec fn two_writes_run(
    d: EcTalk,
    port: u16,
    first: u16,
    policy: u8,
    second: u16,
    duty: u8,
) -> EcRun<()> {
    match write_run(d, port, first, policy) {
        (d, Err(stop)) => (d, Err(stop)),
        (d, Ok(())) => write_run(d, port, second, duty),
    }
}

/// Applying a mode to a fan.
pub open spec fn fan_mode_run(
    d: EcTalk,
    ec: EcDevice,
    codes: Codes,
    fan: FanIndex,
    mode: FanMode,
) -> EcRun<()> {
    let first = ec.ram(policy_offset(fan));
    let second = ec.ram(codes.of_fan(fan));
    match mode {
        FanMode::Auto => two_writes_run(d, ec.rt.port, first, 0x00, second, 0),
        FanMode::Custom(duty) => if duty > MAX_SAFE_DUTY {
            (d, Err(Stop::Failed(EcError::DutyDangerous)))
        } else {
            two_writes_run(d, ec.rt.port, first, 0x40, second, duty)
        },
        _ => two_writes_run(d, ec.rt.port, first, 0x40, second, 150),
    }
}

fn write_two(
    ec: &EcDevice,
    io: &mut EcIo,
    first: u16,
    policy: u8,
    second: u16,
    duty: u8,
) -> (result: Result<(), Stop<EcError>>)
    requires
        ec.rt.addressable(Addr::Ram(first)),
        ec.rt.addressable(Addr::Ram(second)),
    ensures
        (final(io)@, result) == two_writes_run(
            old(io)@,
            ec.rt.port,
            ec.ram(first),
            policy,
            ec.ram(second),
            duty,
        ),
{
    ec.write(io, Addr::Ram(first), policy)?;
    ec.write(io, Addr::Ram(second), duty)
}

/// Sets the mode of a fan.
pub fn set_fan_mode(
    ec: &EcDevice,
    io: &mut EcIo,
    codes: &Codes,
    fan: &FanIndex,
    mode: &FanMode,
) -> (result: Result<IpcResponse, Stop<EcError>>)
    requires
        drive_of(*mode) is Ok ==> ec.rt.addressable(Addr::Ram(policy_offset(*fan)))
            && ec.rt.addressable(Addr::Ram(codes.of_fan(*fan))),
        !(mode is Turbo),
    ensures
        answers(
            fan_mode_run(old(io)@, *ec, *codes, *fan, *mode),
            final(io)@,
            result,
            |_done: ()| IpcResponse::Success,
        ),
{
    let first: u16 = match fan {
        FanIndex::Cpu => 0x4F,
        FanIndex::Gpu => 0x4E,
    };
    let second: u16 = codes.fan(*fan);
    match *mode {
        FanMode::Auto => {
            write_two(ec, io, first, 0x00, second, 0)?;
        },
        FanMode::Custom(duty) => {
            if duty > MAX_SAFE_DUTY {
                return Err(Stop::Failed(EcError::DutyDangerous));
            }
            write_two(ec, io, first, 0x40, second, duty)?;
        },
        _ => {
            write_two(ec, io, first, 0x40, second, 150)?;
        },
    }
    Ok(IpcResponse::Success)
}

/// Reading the backlight register.
pub open spec fn register_run(d: EcTalk, ec: EcDevice) -> EcRun<u8> {
    read_run(d, ec.rt.port, KEYBOARD_BACKLIGHT_REG)
}

/// Setting the backlight.
pub open spec fn backlight_run(
    d: EcTalk,
    ec: EcDevice,
    codes: Codes,
    level: KeyboardBacklightLevel,
) -> EcRun<()> {
    write_run(d, ec.rt.port, KEYBOARD_BACKLIGHT_REG, level_byte(codes.backlight, level))
}

/// Answers with the keyboard backlight, as the level that its register stands for.
pub fn get_keyboard_backlight(ec: &EcDevice, io: &mut EcIo, codes: &Codes) -> (result: Result<
    IpcResponse,
    Stop<EcError>,
>)
    ensures
        answers(
            register_run(old(io)@, *ec),
            final(io)@,
            result,
            |byte: u8|
                IpcResponse::KeyboardBacklight(level_of(codes.backlight, byte)),
        ),
{
    let byte = ec.read(io, Addr::Reg(KEYBOARD_BACKLIGHT_REG))?;
    let level = backlight_level(&codes.backlight, byte);
    Ok(IpcResponse::KeyboardBacklight(level))
}

/// Sets the keyboard backlight.
pub fn set_keyboard_backlight(
    ec: &EcDevice,
    io: &mut EcIo,
    codes: &Codes,
    level: &KeyboardBacklightLevel,
) -> (result: Result<IpcResponse, Stop<EcError>>)
    ensures
        answers(
            backlight_run(old(io)@, *ec, *codes, *level),
            final(io)@,
            result,
            |_done: ()| IpcResponse::Success,
        ),
{
    ec.write(
        io,
        Addr::Reg(KEYBOARD_BACKLIGHT_REG),
        backlight_byte(&codes.backlight, *level),
    )?;
    Ok(IpcResponse::Success)
}

/// When every write succeeds, applying a mode leaves the policy and the duty cycle of that mode in the
/// two cells of the fan, and every other cell as it was: 0 and 0 for automatic, 0x40 and 150 for full
/// speed, 0x40 and its own duty cycle for a custom mode. The policy of the CPU fan is at 0x4F, that of
/// the GPU fan at 0x4E.
pub proof fn law_the_fan_is_driven(
    d: EcTalk,
    ec: EcDevice,
    codes: Codes,
    fan: FanIndex,
    mode: FanMode,
    cells: Map<u16, u8>,
)
    requires
        mode is Auto || mode is Full || (mode matches FanMode::Custom(duty) && duty <= 220),
        ec.rt.hram_offset + 0x4F <= 0xFFFF,
        ec.rt.hram_offset + codes.fan_cpu <= 0xFFFF,
        ec.rt.hram_offset + codes.fan_gpu <= 0xFFFF,
        fan is Cpu ==> codes.fan_cpu != 0x4F,
        fan is Gpu ==> codes.fan_gpu != 0x4E,
        0 <= d.used,
        d.used + 6 <= d.replies.len(),
        forall|k: int| d.used <= k < d.used + 6 ==> d.replies[k] == EcReply::Done,
    ensures
        ({
            let (end, result) = fan_mode_run(d, ec, codes, fan, mode);
            let kept = written(cells, end.asked, d.asked.len() as int);
            let hram = ec.rt.hram_offset as int;
            let policy_cell = (hram + if fan is Cpu { 0x4Fint } else { 0x4E }) as u16;
            let duty_cell = (hram + if fan is Cpu {
                codes.fan_cpu as int
            } else {
                codes.fan_gpu as int
            }) as u16;
            &&& result is Ok
            &&& kept[policy_cell] == if mode is Auto { 0u8 } else { 0x40 }
            &&& mode is Auto ==> kept[duty_cell] == 0
            &&& mode is Full ==> kept[duty_cell] == 150
            &&& mode matches FanMode::Custom(duty) ==> kept[duty_cell] == duty
            &&& kept.dom() == cells.dom().insert(policy_cell).insert(duty_cell)
            &&& forall|addr: u16|
                addr != policy_cell && addr != duty_cell ==> #[trigger] kept[addr] == cells[addr]
        }),
{
    let port = ec.rt.port;
    let start = d.asked.len() as int;
    let first = ec.ram(policy_offset(fan));
    let second = ec.ram(codes.of_fan(fan));
    let policy: u8 = if mode is Auto { 0 } else { 0x40 };
    let duty: u8 = match mode {
        FanMode::Auto => 0,
        FanMode::Custom(duty) => duty,
        _ => 150,
    };
    law_a_write_under_the_lock(d, port, first, policy);
    let d1 = write_run(d, port, first, policy).0;
    law_a_write_under_the_lock(d1, port, second, duty);
    let end = write_run(d1, port, second, duty).0;
    assert(end == fan_mode_run(d, ec, codes, fan, mode).0);
    let a1 = d.asked.push(EcRequest::Lock);
    let a2 = a1.push(EcRequest::WriteByte(port, first, policy));
    let a3 = a2.push(EcRequest::Unlock);
    let a4 = a3.push(EcRequest::Lock);
    let a5 = a4.push(EcRequest::WriteByte(port, second, duty));
    law_a_write_is_the_last_word(cells, d.asked, start, EcRequest::Lock);
    law_a_write_is_the_last_word(cells, a1, start, EcRequest::WriteByte(port, first, policy));
    law_a_write_is_the_last_word(cells, a2, start, EcRequest::Unlock);
    law_a_write_is_the_last_word(cells, a3, start, EcRequest::Lock);
    law_a_write_is_the_last_word(cells, a4, start, EcRequest::WriteByte(port, second, duty));
    law_a_write_is_the_last_word(cells, a5, start, EcRequest::Unlock);
    assert(end.asked =~= a5.push(EcRequest::Unlock));
}

/// A custom duty cycle above 220 is refused before anything is asked of the controller.
pub proof fn law_a_dangerous_duty_is_refused(
    d: EcTalk,
    ec: EcDevice,
    codes: Codes,
    fan: FanIndex,
    duty: u8,
)
    requires
        duty > 220,
    ensures
        fan_mode_run(d, ec, codes, fan, FanMode::Custom(duty)) == (
            d,
            Err::<(), Stop<EcError>>(Stop::Failed(EcError::DutyDangerous)),
        ),
{
}

/// Where the policy cannot be written, the duty cycle is not: the failure is the outcome.
pub proof fn law_no_duty_without_the_policy(
    d: EcTalk,
    ec: EcDevice,
    codes: Codes,
    fan: FanIndex,
    mode: FanMode,
    fault: u32,
)
    requires
        !(mode is Custom),
        0 <= d.used,
        d.used + 3 <= d.replies.len(),
        d.replies[d.used] == EcReply::Done,
        d.replies[d.used + 1] == EcReply::Fault(fault),
        d.replies[d.used + 2] == EcReply::Done,
    ensures
        fan_mode_run(d, ec, codes, fan, mode).1 == Err::<(), Stop<EcError>>(
            Stop::Failed(EcError::Fault(fault)),
        ),
        fan_mode_run(d, ec, codes, fan, mode).0.asked.len() == d.asked.len() + 3,
{
    let first = ec.ram(policy_offset(fan));
    law_a_write_under_the_lock(d, ec.rt.port, first, 0);
    law_a_write_under_the_lock(d, ec.rt.port, first, 0x40);
}

/// The backlight is set and read at 0xCF05: on a controller that keeps its cells, what is read after a
/// level was set is the byte of that level.
pub proof fn law_the_backlight_is_kept(
    d: EcTalk,
    ec: EcDevice,
    codes: Codes,
    level: KeyboardBacklightLevel,
    cells: Map<u16, u8>,
    e: EcTalk,
)
    requires
        0 <= d.used,
        d.used + 3 <= d.replies.len(),
        forall|k: int| d.used <= k < d.used + 3 ==> d.replies[k] == EcReply::Done,
        0 <= e.used,
        e.used + 3 <= e.replies.len(),
        e.replies[e.used] == EcReply::Done,
        e.replies[e.used + 1] == EcReply::Byte(
            written(
                cells,
                backlight_run(d, ec, codes, level).0.asked,
                d.asked.len() as int,
            )[0xCF05u16],
        ),
        e.replies[e.used + 2] == EcReply::Done,
    ensures
        ({
            let byte = match level {
                KeyboardBacklightLevel::Off => codes.backlight.off,
                KeyboardBacklightLevel::Low => codes.backlight.low,
                KeyboardBacklightLevel::Medium => codes.backlight.medium,
                KeyboardBacklightLevel::High => codes.backlight.high,
                KeyboardBacklightLevel::Custom(value) => value,
            };
            &&& backlight_run(d, ec, codes, level).1 is Ok
            &&& backlight_run(d, ec, codes, level).0.asked == d.asked + seq![
                EcRequest::Lock,
                EcRequest::WriteByte(ec.rt.port, 0xCF05, byte),
                EcRequest::Unlock,
            ]
            &&& register_run(e, ec).1 == Ok::<u8, Stop<EcError>>(byte)
            &&& register_run(e, ec).0.asked == e.asked + seq![
                EcRequest::Lock,
                EcRequest::ReadByte(ec.rt.port, 0xCF05),
                EcRequest::Unlock,
            ]
        }),
{
    let val = level_byte(codes.backlight, level);
    let start = d.asked.len() as int;
    let write = EcRequest::WriteByte(ec.rt.port, 0xCF05, val);
    law_a_write_is_the_last_word(cells, d.asked, start, EcRequest::Lock);
    law_a_write_is_the_last_word(cells, d.asked.push(EcRequest::Lock), start, write);
    law_a_write_is_the_last_word(
        cells,
        d.asked.push(EcRequest::Lock).push(write),
        start,
        EcRequest::Unlock,
    );
    assert(backlight_run(d, ec, codes, level).0.asked =~= d.asked.push(EcRequest::Lock).push(
        write,
    ).push(EcRequest::Unlock));
}

} // verus!
