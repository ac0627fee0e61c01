//! The charge thresholds that the controller keeps.
use vstd::prelude::*;

use super::device::{batch_run, read_run, writes_run, Addr, EcBatch, EcDevice};
use super::error::EcError;
use super::io::{
    byte_run, law_a_write_is_the_last_word, written, EcIo, EcReply, EcRequest, EcRun, EcTalk,
};
use crate::session::Stop;
use crate::types::ChargeLimit;

verus! {

/// Two bytes, read one after the other.
pub open spec fn pair_run(d: EcTalk, port: u16, first: u16, second: u16) -> EcRun<(u8, u8)> {
    match byte_run(d, port, first) {
        (d, Err(stop)) => (d, Err(stop)),
        (d, Ok(min)) => match byte_run(d, port, second) {
            (d, Err(stop)) => (d, Err(stop)),
            (d, Ok(max)) => (d, Ok((min, max))),
        },
    }
}

/// Reading the thresholds at which charging starts and stops.
pub open spec fn thresholds_run(d: EcTalk, ec: EcDevice) -> EcRun<(u8, u8)> {
    batch_run(
        d,
        |d: EcTalk|
            pair_run(
                d,
                ec.rt.port,
                ec.ram(ec.profile.offsets.ram_bat_limit_min),
                ec.ram(ec.profile.offsets.ram_bat_limit_max),
            ),
    )
}

/// Reading the state of charge.
pub open spec fn rsoc_run(d: EcTalk, ec: EcDevice) -> EcRun<u8> {
    read_run(d, ec.rt.port, ec.ram(ec.profile.offsets.ram_bat_rsoc))
}

/// Writing the thresholds at which charging starts and stops.
pub open spec fn limit_run(d: EcTalk, ec: EcDevice, limit: ChargeLimit) -> EcRun<()> {
    batch_run(d, |d: EcTalk| writes_run(d, ec.rt.port, limit_writes(ec, limit), 0))
}

/// Reads the thresholds at which charging starts and stops.
pub fn read_charge_limit(ec: &EcDevice, io: &mut EcIo) -> (result: Result<(u8, u8), Stop<EcError>>)
    requires
        ec.rt.addressable(Addr::Ram(ec.profile.offsets.ram_bat_limit_min)),
        ec.rt.addressable(Addr::Ram(ec.profile.offsets.ram_bat_limit_max)),
    ensures
        (final(io)@, result) == thresholds_run(old(io)@, *ec),
{
    let low: u16 = ec.profile.offsets.ram_bat_limit_min;
    let high: u16 = ec.profile.offsets.ram_bat_limit_max;
    ec.with_batch(
        io,
        |b: &EcBatch, io: &mut EcIo| -> (r: Result<(u8, u8), Stop<EcError>>)
            requires
                b.rt.addressable(Addr::Ram(low)),
                b.rt.addressable(Addr::Ram(high))
            ensures
                (final(io)@, r) == pair_run(
                    old(io)@,
                    b.rt.port,
                    (b.rt.hram_offset + low) as u16,
                    (b.rt.hram_offset + high) as u16,
                )
            {
                let min = b.read(io, Addr::Ram(low))?;
                let max = b.read(io, Addr::Ram(high))?;
                Ok((min, max))
            },
    )
}

/// Reads the state of charge, in percent.
pub fn read_battery_rsoc(ec: &EcDevice, io: &mut EcIo) -> (result: Result<u8, Stop<EcError>>)
    requires
        ec.rt.addressable(Addr::Ram(ec.profile.offsets.ram_bat_rsoc)),
    ensures
        (final(io)@, result) == rsoc_run(old(io)@, *ec),
{
    ec.read(io, Addr::Ram(ec.profile.offsets.ram_bat_rsoc))
}

/// The bytes that a pair of thresholds writes.
pub open spec fn limit_writes(ec: EcDevice, limit: ChargeLimit) -> Seq<(u16, u8)> {
    seq![
        (ec.ram(ec.profile.offsets.ram_bat_limit_min), limit.min),
        (ec.ram(ec.profile.offsets.ram_bat_limit_max), limit.max),
    ]
}

/// Writes the thresholds at which charging starts and stops.
pub fn apply_charge_limit(ec: &EcDevice, io: &mut EcIo, limit: &ChargeLimit) -> (result: Result<
    (),
    Stop<EcError>,
>)
    requires
        ec.rt.addressable(Addr::Ram(ec.profile.offsets.ram_bat_limit_min)),
        ec.rt.addressable(Addr::Ram(ec.profile.offsets.ram_bat_limit_max)),
    ensures
        (final(io)@, result) == limit_run(old(io)@, *ec, *limit),
{
    let (min, max) = limit.as_percent();
    let low: u16 = ec.profile.offsets.ram_bat_limit_min;
    let high: u16 = ec.profile.offsets.ram_bat_limit_max;
    ec.with_batch(
        io,
        |b: &EcBatch, io: &mut EcIo| -> (r: Result<(), Stop<EcError>>)
            requires
                b.rt.addressable(Addr::Ram(low)),
                b.rt.addressable(Addr::Ram(high))
            ensures
                (final(io)@, r) == writes_run(
                    old(io)@,
                    b.rt.port,
                    seq![
                        ((b.rt.hram_offset + low) as u16, min),
                        ((b.rt.hram_offset + high) as u16, max),
                    ],
                    0,
                )
            {
                proof {
                    reveal_with_fuel(writes_run, 3);
                }
                b.write(io, Addr::Ram(low), min)?;
                b.write(io, Addr::Ram(high), max)
            },
    )
}

/// Thresholds that were written are read back: on a controller that keeps its cells, a reading
/// after a write returns what was written.
pub proof fn law_charge_limit_round_trip(
    ec: EcDevice,
    limit: ChargeLimit,
    cells: Map<u16, u8>,
    d: EcTalk,
    e: EcTalk,
)
    requires
        ec.rt.addressable(Addr::Ram(ec.profile.offsets.ram_bat_limit_min)),
        ec.rt.addressable(Addr::Ram(ec.profile.offsets.ram_bat_limit_max)),
        ec.profile.offsets.ram_bat_limit_min != ec.profile.offsets.ram_bat_limit_max,
        0 <= d.used,
        d.used + 4 <= d.replies.len(),
        forall|k: int| d.used <= k < d.used + 4 ==> d.replies[k] == EcReply::Done,
        0 <= e.used,
        e.used + 4 <= e.replies.len(),
        ({
            let list = limit_writes(ec, limit);
            let run = batch_run(d, |d: EcTalk| writes_run(d, ec.rt.port, list, 0));
            let kept = written(cells, run.0.asked, d.asked.len() as int);
            &&& e.replies[e.used] == EcReply::Done
            &&& e.replies[e.used + 1] == EcReply::Byte(
                kept[ec.ram(ec.profile.offsets.ram_bat_limit_min)],
            )
            &&& e.replies[e.used + 2] == EcReply::Byte(
                kept[ec.ram(ec.profile.offsets.ram_bat_limit_max)],
            )
            &&& e.replies[e.used + 3] == EcReply::Done
        }),
    ensures
        batch_run(d, |d: EcTalk| writes_run(d, ec.rt.port, limit_writes(ec, limit), 0)).1 == Ok::<
            (),
            Stop<EcError>,
        >(()),
        batch_run(
            e,
            |d: EcTalk|
                pair_run(
                    d,
                    ec.rt.port,
                    ec.ram(ec.profile.offsets.ram_bat_limit_min),
                    ec.ram(ec.profile.offsets.ram_bat_limit_max),
                ),
        ).1 == Ok::<(u8, u8), Stop<EcError>>((limit.min, limit.max)),
{
    reveal_with_fuel(writes_run, 3);
    reveal_with_fuel(written, 5);
    let low = ec.ram(ec.profile.offsets.ram_bat_limit_min);
    let high = ec.ram(ec.profile.offsets.ram_bat_limit_max);
    let list = limit_writes(ec, limit);
    let asked = batch_run(d, |d: EcTalk| writes_run(d, ec.rt.port, list, 0)).0.asked;
    assert(asked == d.asked.push(EcRequest::Lock).push(
        EcRequest::WriteByte(ec.rt.port, low, limit.min),
    ).push(
        EcRequest::WriteByte(ec.rt.port, high, limit.max),
    ).push(EcRequest::Unlock));
    assert(asked.drop_last() =~= d.asked.push(EcRequest::Lock).push(
        EcRequest::WriteByte(ec.rt.port, low, limit.min),
    ).push(EcRequest::WriteByte(ec.rt.port, high, limit.max)));
    assert(asked.drop_last().drop_last() =~= d.asked.push(EcRequest::Lock).push(
        EcRequest::WriteByte(ec.rt.port, low, limit.min),
    ));
    assert(asked.drop_last().drop_last().drop_last() =~= d.asked.push(EcRequest::Lock));
    assert(asked.drop_last().drop_last().drop_last().drop_last() =~= d.asked);
}

/// The two bytes are read in their order, and the first failure is the outcome.
pub proof fn law_a_pair_is_read_in_order(d: EcTalk, port: u16, first: u16, second: u16)
    requires
        0 <= d.used,
        d.used + 2 <= d.replies.len(),
    ensures
        ({
            let (end, result) = pair_run(d, port, first, second);
            match (d.replies[d.used], d.replies[d.used + 1]) {
                (EcReply::Byte(min), EcReply::Byte(max)) => {
                    &&& result == Ok::<(u8, u8), Stop<EcError>>((min, max))
                    &&& end.asked == d.asked + seq![
                        EcRequest::ReadByte(port, first),
                        EcRequest::ReadByte(port, second),
                    ]
                },
                (EcReply::Fault(n), _) => {
                    &&& result == Err::<(u8, u8), Stop<EcError>>(Stop::Failed(EcError::Fault(n)))
                    &&& end.asked == d.asked.push(EcRequest::ReadByte(port, first))
                },
                (EcReply::Byte(_), EcReply::Fault(n)) => result == Err::<(u8, u8), Stop<EcError>>(
                    Stop::Failed(EcError::Fault(n)),
                ),
                _ => result is Err,
            }
        }),
{
}

/// Thresholds are written to the two cells that the board keeps them in, and nowhere else: the lower
/// one to the cell of the lower one, and the upper one to the cell of the upper one.
pub proof fn law_thresholds_reach_their_cells(
    d: EcTalk,
    ec: EcDevice,
    limit: ChargeLimit,
    cells: Map<u16, u8>,
)
    requires
        ec.rt.addressable(Addr::Ram(ec.profile.offsets.ram_bat_limit_min)),
        ec.rt.addressable(Addr::Ram(ec.profile.offsets.ram_bat_limit_max)),
        ec.profile.offsets.ram_bat_limit_min != ec.profile.offsets.ram_bat_limit_max,
        0 <= d.used,
        d.used + 4 <= d.replies.len(),
        forall|k: int| d.used <= k < d.used + 4 ==> d.replies[k] == EcReply::Done,
    ensures
        ({
            let (end, result) = limit_run(d, ec, limit);
            let kept = written(cells, end.asked, d.asked.len() as int);
            let low = (ec.rt.hram_offset + ec.profile.offsets.ram_bat_limit_min) as u16;
            let high = (ec.rt.hram_offset + ec.profile.offsets.ram_bat_limit_max) as u16;
            &&& result is Ok
            &&& kept.dom().contains(low) && kept[low] == limit.min
            &&& kept.dom().contains(high) && kept[high] == limit.max
            &&& forall|addr: u16|
                addr != low && addr != high ==> (#[trigger] kept.dom().contains(addr)
                    <==> cells.dom().contains(addr)) && kept[addr] == cells[addr]
        }),
{
    reveal_with_fuel(writes_run, 3);
    let start = d.asked.len() as int;
    let port = ec.rt.port;
    let list = limit_writes(ec, limit);
    let a0 = d.asked.push(EcRequest::Lock);
    let w1 = EcRequest::WriteByte(port, list[0].0, list[0].1);
    let w2 = EcRequest::WriteByte(port, list[1].0, list[1].1);
    law_a_write_is_the_last_word(cells, d.asked, start, EcRequest::Lock);
    law_a_write_is_the_last_word(cells, a0, start, w1);
    law_a_write_is_the_last_word(cells, a0.push(w1), start, w2);
    law_a_write_is_the_last_word(cells, a0.push(w1).push(w2), start, EcRequest::Unlock);
    assert(batch_run(d, |d: EcTalk| writes_run(d, port, list, 0)).0.asked =~= a0.push(w1).push(
        w2,
    ).push(EcRequest::Unlock));
}

/// The thresholds are read from the two cells that the board keeps them in, the lower one first, and
/// the charge from its own cell.
pub proof fn law_levels_are_read_from_their_cells(d: EcTalk, ec: EcDevice, first: u8, second: u8)
    requires
        0 <= d.used,
        d.used + 4 <= d.replies.len(),
        d.replies[d.used] == EcReply::Done,
        d.replies[d.used + 1] == EcReply::Byte(first),
        d.replies[d.used + 2] == EcReply::Byte(second) || d.replies[d.used + 2] == EcReply::Done,
        d.replies[d.used + 3] == EcReply::Done,
    ensures
        ({
            let hram = ec.rt.hram_offset as int;
            let low = (hram + ec.profile.offsets.ram_bat_limit_min) as u16;
            let high = (hram + ec.profile.offsets.ram_bat_limit_max) as u16;
            let charge = (hram + ec.profile.offsets.ram_bat_rsoc) as u16;
            &&& d.replies[d.used + 2] == EcReply::Byte(second) ==> {
                &&& thresholds_run(d, ec).1 == Ok::<(u8, u8), Stop<EcError>>((first, second))
                &&& thresholds_run(d, ec).0.asked == d.asked + seq![
                    EcRequest::Lock,
                    EcRequest::ReadByte(ec.rt.port, low),
                    EcRequest::ReadByte(ec.rt.port, high),
                    EcRequest::Unlock,
                ]
            }
            &&& d.replies[d.used + 2] == EcReply::Done ==> {
                &&& rsoc_run(d, ec).1 == Ok::<u8, Stop<EcError>>(first)
                &&& rsoc_run(d, ec).0.asked == d.asked + seq![
                    EcRequest::Lock,
                    EcRequest::ReadByte(ec.rt.port, charge),
                    EcRequest::Unlock,
                ]
            }
        }),
{
}

} // verus!
