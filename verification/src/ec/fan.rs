//! Driving the fans.
use vstd::prelude::*;

use super::codes::Codes;
use super::device::{batch_run, writes_run, Addr, EcBatch, EcDevice, EcOffsets};
use super::error::EcError;
use super::io::{
    law_a_write_is_the_last_word, written, EcIo, EcReply, EcRequest, EcRun, EcTalk,
};
use crate::session::Stop;
use crate::types::{FanIndex, FanMode};

verus! {

/// The fans that a mode is applied to.
#[derive(Clone, Copy, PartialEq, Eq, Debug, Structural)]
pub enum FanSelect {
    Cpu,
    Gpu,
    /// Both fans, without another user of the controller in between.
    Both,
}

/// One fan.
pub open spec fn only(fan: FanIndex) -> FanSelect {
    match fan {
        FanIndex::Cpu => FanSelect::Cpu,
        FanIndex::Gpu => FanSelect::Gpu,
    }
}

impl FanSelect {
    /// One fan.
    pub fn only(fan: FanIndex) -> (select: FanSelect)
        ensures
            select == only(fan),
    {
        match fan {
            FanIndex::Cpu => FanSelect::Cpu,
            FanIndex::Gpu => FanSelect::Gpu,
        }
    }
}

/// The largest duty cycle that is safe.
pub const MAX_SAFE_DUTY: u8 = 220;

/// The thermal policy and the duty cycle of a mode.
pub open spec fn drive_of(mode: FanMode) -> Result<(u8, u8), EcError>
    recommends
        !(mode is Turbo),
{
    match mode {
        FanMode::Auto => Ok((0x00, 0)),
        FanMode::Custom(duty) => if duty > MAX_SAFE_DUTY {
            Err(EcError::DutyTooHigh(duty))
        } else {
            Ok((0x40, duty))
        },
        _ => Ok((0x40, 150)),
    }
}

/// The bytes that a mode writes: the thermal policies first, then the duty cycles.
pub open spec fn fan_writes(
    hram: u16,
    offsets: EcOffsets,
    codes: Codes,
    fan: FanSelect,
    policy: u8,
    duty: u8,
) -> Seq<(u16, u8)> {
    let policy_cpu = ((hram + offsets.ram_thermal_policy_cpu) as u16, policy);
    let policy_gpu = ((hram + offsets.ram_thermal_policy_gpu) as u16, policy);
    let duty_cpu = ((hram + codes.fan_cpu) as u16, duty);
    let duty_gpu = ((hram + codes.fan_gpu) as u16, duty);
    match fan {
        FanSelect::Both => seq![policy_cpu, policy_gpu, duty_cpu, duty_gpu],
        FanSelect::Cpu => seq![policy_cpu, duty_cpu],
        FanSelect::Gpu => seq![policy_gpu, duty_gpu],
    }
}

/// The bytes of the selected fans exist.
pub open spec fn fans_fit(ec: EcDevice, codes: Codes, fan: FanSelect) -> bool {
    let offsets = ec.profile.offsets;
    &&& !(fan is Gpu) ==> ec.rt.addressable(Addr::Ram(offsets.ram_thermal_policy_cpu))
        && ec.rt.addressable(Addr::Ram(codes.fan_cpu))
    &&& !(fan is Cpu) ==> ec.rt.addressable(Addr::Ram(offsets.ram_thermal_policy_gpu))
        && ec.rt.addressable(Addr::Ram(codes.fan_gpu))
}

/// Checks that the bytes of the selected fans exist.
pub fn has_fans(ec: &EcDevice, codes: &Codes, fan: FanSelect) -> (fit: bool)
    ensures
        fit == fans_fit(*ec, *codes, fan),
{
    let offsets = &ec.profile.offsets;
    let cpu: bool = ec.is_addressable(Addr::Ram(offsets.ram_thermal_policy_cpu))
        && ec.is_addressable(Addr::Ram(codes.fan_cpu));
    let gpu: bool = ec.is_addressable(Addr::Ram(offsets.ram_thermal_policy_gpu))
        && ec.is_addressable(Addr::Ram(codes.fan_gpu));
    match fan {
        FanSelect::Cpu => cpu,
        FanSelect::Gpu => gpu,
        FanSelect::Both => cpu && gpu,
    }
}

/// Driving the selected fans as `mode` says.
pub open spec fn drive_run(
    d: EcTalk,
    ec: EcDevice,
    codes: Codes,
    fan: FanSelect,
    mode: FanMode,
) -> EcRun<()> {
    match drive_of(mode) {
        Err(error) => (d, Err(Stop::Failed(error))),
        Ok((policy, duty)) => batch_run(
            d,
            |d: EcTalk|
                writes_run(
                    d,
                    ec.rt.port,
                    fan_writes(ec.rt.hram_offset, ec.profile.offsets, codes, fan, policy, duty),
                    0,
                ),
        ),
    }
}

/// Drives the selected fans as `mode` says.
pub fn apply_fan_mode(
    ec: &EcDevice,
    io: &mut EcIo,
    codes: &Codes,
    fan: FanSelect,
    mode: FanMode,
) -> (result: Result<(), Stop<EcError>>)
    requires
        drive_of(mode) is Ok ==> fans_fit(*ec, *codes, fan),
        !(mode is Turbo),
    ensures
        (final(io)@, result) == drive_run(old(io)@, *ec, *codes, fan, mode),
{
    let (policy, duty): (u8, u8) = match mode {
        FanMode::Auto => (0x00, 0),
        FanMode::Custom(duty) => {
            if duty > MAX_SAFE_DUTY {
                return Err(Stop::Failed(EcError::DutyTooHigh(duty)));
            }
            (0x40, duty)
        },
        _ => (0x40, 150),
    };
    let offsets: EcOffsets = ec.profile.offsets;
    let numbers: Codes = *codes;
    proof {
        reveal_with_fuel(writes_run, 5);
    }
    match fan {
        FanSelect::Both => ec.with_batch(
            io,
            |b: &EcBatch, io: &mut EcIo| -> (r: Result<(), Stop<EcError>>)
                requires
                    b.rt.addressable(Addr::Ram(offsets.ram_thermal_policy_cpu)),
                    b.rt.addressable(Addr::Ram(offsets.ram_thermal_policy_gpu)),
                    b.rt.addressable(Addr::Ram(numbers.fan_cpu)),
                    b.rt.addressable(Addr::Ram(numbers.fan_gpu))
                ensures
                    (final(io)@, r) == writes_run(
                        old(io)@,
                        b.rt.port,
                        fan_writes(
                            b.rt.hram_offset,
                            offsets,
                            numbers,
                            FanSelect::Both,
                            policy,
                            duty,
                        ),
                        0,
                    )
                {
                    proof {
                        reveal_with_fuel(writes_run, 5);
                    }
                    b.write(io, Addr::Ram(offsets.ram_thermal_policy_cpu), policy)?;
                    b.write(io, Addr::Ram(offsets.ram_thermal_policy_gpu), policy)?;
                    b.write(io, Addr::Ram(numbers.fan_cpu), duty)?;
                    b.write(io, Addr::Ram(numbers.fan_gpu), duty)
                },
        ),
        FanSelect::Cpu => apply_one(
            ec,
            io,
            offsets.ram_thermal_policy_cpu,
            numbers.fan_cpu,
            policy,
            duty,
        ),
        FanSelect::Gpu => apply_one(
            ec,
            io,
            offsets.ram_thermal_policy_gpu,
            numbers.fan_gpu,
            policy,
            duty,
        ),
    }
}

fn apply_one(
    ec: &EcDevice,
    io: &mut EcIo,
    policy_offset: u16,
    duty_offset: u16,
    policy: u8,
    duty: u8,
) -> (result: Result<(), Stop<EcError>>)
    requires
        ec.rt.addressable(Addr::Ram(policy_offset)),
        ec.rt.addressable(Addr::Ram(duty_offset)),
    ensures
        (final(io)@, result) == batch_run(
            old(io)@,
            |d: EcTalk|
                writes_run(
                    d,
                    ec.rt.port,
                    seq![
                        ((ec.rt.hram_offset + policy_offset) as u16, policy),
                        ((ec.rt.hram_offset + duty_offset) as u16, duty),
                    ],
                    0,
                ),
        ),
{
    ec.with_batch(
        io,
        |b: &EcBatch, io: &mut EcIo| -> (r: Result<(), Stop<EcError>>)
            requires
                b.rt.addressable(Addr::Ram(policy_offset)),
                b.rt.addressable(Addr::Ram(duty_offset))
            ensures
                (final(io)@, r) == writes_run(
                    old(io)@,
                    b.rt.port,
                    seq![
                        ((b.rt.hram_offset + policy_offset) as u16, policy),
                        ((b.rt.hram_offset + duty_offset) as u16, duty),
                    ],
                    0,
                )
            {
                proof {
                    reveal_with_fuel(writes_run, 3);
                }
                b.write(io, Addr::Ram(policy_offset), policy)?;
                b.write(io, Addr::Ram(duty_offset), duty)
            },
    )
}

/// No duty cycle above the safe limit is ever written: every mode either is refused or drives the
/// fans within it.
pub proof fn law_duty_stays_safe(mode: FanMode)
    requires
        !(mode is Turbo),
    ensures
        drive_of(mode) matches Ok((policy, duty)) ==> duty <= MAX_SAFE_DUTY && (policy == 0
            || policy == 0x40),
        drive_of(mode) is Err <==> (mode matches FanMode::Custom(duty) && duty > MAX_SAFE_DUTY),
{
}

/// When both fans are set and every write succeeds, the four writes stand next to each other
/// inside one taking of the lock.
pub proof fn law_both_fans_change_together(
    d: EcTalk,
    port: u16,
    hram: u16,
    offsets: EcOffsets,
    codes: Codes,
    policy: u8,
    duty: u8,
)
    requires
        0 <= d.used,
        d.used + 6 <= d.replies.len(),
        forall|k: int| d.used <= k < d.used + 6 ==> d.replies[k] == super::io::EcReply::Done,
    ensures
        ({
            let list = fan_writes(hram, offsets, codes, FanSelect::Both, policy, duty);
            let (end, result) = batch_run(d, |d: EcTalk| writes_run(d, port, list, 0));
            &&& result == Ok::<(), Stop<EcError>>(())
            &&& end.asked == d.asked + seq![
                EcRequest::Lock,
                EcRequest::WriteByte(port, list[0].0, policy),
                EcRequest::WriteByte(port, list[1].0, policy),
                EcRequest::WriteByte(port, list[2].0, duty),
                EcRequest::WriteByte(port, list[3].0, duty),
                EcRequest::Unlock,
            ]
        }),
{
    reveal_with_fuel(writes_run, 5);
}

/// The thermal policy that a mode stands for: none for automatic, manual for the others.
pub open spec fn policy_for(mode: FanMode) -> u8 {
    if mode is Auto {
        0
    } else {
        0x40
    }
}

/// `duty` is the duty cycle that a mode asks for: its own for a custom mode, 150 for full speed, and
/// none for automatic.
pub open spec fn asks_for(mode: FanMode, duty: u8) -> bool {
    match mode {
        FanMode::Custom(own) => duty == own,
        FanMode::Auto => duty == 0,
        FanMode::Full => duty == 150,
        FanMode::Turbo => false,
    }
}

/// When every write succeeds, driving a selection of fans in a mode leaves in the cells of each fan
/// that was selected the policy and the duty cycle of that mode, and every other cell as it was. This
/// holds of every selection and of every mode that is not refused.
pub proof fn law_each_selected_fan_is_driven(
    d: EcTalk,
    ec: EcDevice,
    codes: Codes,
    fan: FanSelect,
    mode: FanMode,
    duty: u8,
    cells: Map<u16, u8>,
)
    requires
        !(mode is Turbo),
        asks_for(mode, duty),
        duty <= 220,
        fans_fit(ec, codes, fan),
        !(fan is Gpu) ==> ec.profile.offsets.ram_thermal_policy_cpu != codes.fan_cpu,
        !(fan is Cpu) ==> ec.profile.offsets.ram_thermal_policy_gpu != codes.fan_gpu,
        fan is Both ==> ec.profile.offsets.ram_thermal_policy_cpu != codes.fan_gpu
            && ec.profile.offsets.ram_thermal_policy_gpu != codes.fan_cpu,
        0 <= d.used,
        d.used + 6 <= d.replies.len(),
        forall|k: int| d.used <= k < d.used + 6 ==> d.replies[k] == EcReply::Done,
    ensures
        ({
            let (end, result) = drive_run(d, ec, codes, fan, mode);
            let kept = written(cells, end.asked, d.asked.len() as int);
            let hram = ec.rt.hram_offset as int;
            let policy_cpu = (hram + ec.profile.offsets.ram_thermal_policy_cpu) as u16;
            let policy_gpu = (hram + ec.profile.offsets.ram_thermal_policy_gpu) as u16;
            let duty_cpu = (hram + codes.fan_cpu) as u16;
            let duty_gpu = (hram + codes.fan_gpu) as u16;
            &&& result is Ok
            &&& fan is Cpu || fan is Both ==> {
                &&& kept.dom().contains(policy_cpu) && kept[policy_cpu] == policy_for(mode)
                &&& kept.dom().contains(duty_cpu) && kept[duty_cpu] == duty
            }
            &&& fan is Gpu || fan is Both ==> {
                &&& kept.dom().contains(policy_gpu) && kept[policy_gpu] == policy_for(mode)
                &&& kept.dom().contains(duty_gpu) && kept[duty_gpu] == duty
            }
            &&& forall|addr: u16|
                !(!(fan is Gpu) && (addr == policy_cpu || addr == duty_cpu)) && !(!(fan is Cpu) && (
                addr == policy_gpu || addr == duty_gpu)) ==> (#[trigger] kept.dom().contains(addr)
                    <==> cells.dom().contains(addr)) && kept[addr] == cells[addr]
            &&& end.asked[d.asked.len() as int] == EcRequest::Lock
            &&& end.asked.last() == EcRequest::Unlock
            &&& forall|i: int|
                d.asked.len() < i < end.asked.len() - 1 ==> (#[trigger] end.asked[i] matches EcRequest::WriteByte(
                port,
                _,
                _,
            ) && port == ec.rt.port)
        }),
{
    reveal_with_fuel(writes_run, 5);
    reveal_with_fuel(written, 7);
    let policy = policy_for(mode);
    let port = ec.rt.port;
    let list = fan_writes(ec.rt.hram_offset, ec.profile.offsets, codes, fan, policy, duty);
    let start = d.asked.len() as int;
    let a0 = d.asked.push(EcRequest::Lock);
    let a1 = a0.push(EcRequest::WriteByte(port, list[0].0, list[0].1));
    let a2 = a1.push(EcRequest::WriteByte(port, list[1].0, list[1].1));
    law_a_write_is_the_last_word(cells, d.asked, start, EcRequest::Lock);
    law_a_write_is_the_last_word(
        cells,
        a0,
        start,
        EcRequest::WriteByte(port, list[0].0, list[0].1),
    );
    law_a_write_is_the_last_word(
        cells,
        a1,
        start,
        EcRequest::WriteByte(port, list[1].0, list[1].1),
    );
    if fan is Both {
        let a3 = a2.push(EcRequest::WriteByte(port, list[2].0, list[2].1));
        let a4 = a3.push(EcRequest::WriteByte(port, list[3].0, list[3].1));
        law_a_write_is_the_last_word(
            cells,
            a2,
            start,
            EcRequest::WriteByte(port, list[2].0, list[2].1),
        );
        law_a_write_is_the_last_word(
            cells,
            a3,
            start,
            EcRequest::WriteByte(port, list[3].0, list[3].1),
        );
        law_a_write_is_the_last_word(cells, a4, start, EcRequest::Unlock);
        assert(drive_run(d, ec, codes, fan, mode).0.asked == a4.push(EcRequest::Unlock));
    } else {
        law_a_write_is_the_last_word(cells, a2, start, EcRequest::Unlock);
        assert(drive_run(d, ec, codes, fan, mode).0.asked == a2.push(EcRequest::Unlock));
    }
}

/// A custom duty cycle above 220 is refused, with that duty cycle in the error, and nothing is asked
/// of the controller.
pub proof fn law_dangerous_duty_is_refused(
    d: EcTalk,
    ec: EcDevice,
    codes: Codes,
    fan: FanSelect,
    duty: u8,
)
    requires
        duty > 220,
    ensures
        drive_run(d, ec, codes, fan, FanMode::Custom(duty)) == (
            d,
            Err::<(), Stop<EcError>>(Stop::Failed(EcError::DutyTooHigh(duty))),
        ),
{
}

/// A selection of one fan is of that fan, and never of both.
pub proof fn law_one_fan_is_selected(fan: FanIndex)
    ensures
        fan is Cpu <==> only(fan) is Cpu,
        fan is Gpu <==> only(fan) is Gpu,
        !(only(fan) is Both),
{
}

/// A failed write ends the driving: what failed is reported, the lock is given back, and nothing else
/// is written.
pub proof fn law_a_failed_fan_write_is_reported(
    d: EcTalk,
    ec: EcDevice,
    codes: Codes,
    fan: FanSelect,
    mode: FanMode,
    good: int,
    fault: u32,
)
    requires
        drive_of(mode) is Ok,
        0 <= good < if fan is Both { 4int } else { 2 },
        0 <= d.used,
        d.used + good + 3 <= d.replies.len(),
        forall|k: int| d.used <= k <= d.used + good ==> d.replies[k] == EcReply::Done,
        d.replies[d.used + good + 1] == EcReply::Fault(fault),
        d.replies[d.used + good + 2] == EcReply::Done,
    ensures
        drive_run(d, ec, codes, fan, mode).1 == Err::<(), Stop<EcError>>(
            Stop::Failed(EcError::Fault(fault)),
        ),
        drive_run(d, ec, codes, fan, mode).0.asked.len() == d.asked.len() + good + 3,
        drive_run(d, ec, codes, fan, mode).0.asked.last() == EcRequest::Unlock,
{
    reveal_with_fuel(writes_run, 5);
}

} // verus!
