//! The power profile.
use vstd::prelude::*;

use super::device::{read_run, write_run, Addr, EcDevice};
use super::error::EcError;
use super::io::{
    law_a_write_is_the_last_word, written, EcIo, EcReply, EcRequest, EcRun, EcTalk,
};
use crate::session::Stop;
use crate::types::{IpcResponse, PowerProfile};

verus! {

/// The byte of a profile.
pub open spec fn profile_byte(profile: PowerProfile) -> u8 {
    match profile {
        PowerProfile::Silent => 1,
        PowerProfile::Default => 2,
        PowerProfile::Performance => 3,
    }
}

/// The profile of a byte.
pub open spec fn profile_of(byte: u8) -> Result<PowerProfile, EcError> {
    if byte == 1 {
        Ok(PowerProfile::Silent)
    } else if byte == 2 {
        Ok(PowerProfile::Default)
    } else if byte == 3 {
        Ok(PowerProfile::Performance)
    } else {
        Err(EcError::UnknownPowerProfile(byte))
    }
}

/// The byte of a profile.
pub fn encode_power_profile(profile: &PowerProfile) -> (byte: u8)
    ensures
        byte == profile_byte(*profile),
{
    match profile {
        PowerProfile::Silent => 1,
        PowerProfile::Default => 2,
        PowerProfile::Performance => 3,
    }
}

/// The profile of a byte.
pub fn decode_power_profile(byte: u8) -> (profile: Result<PowerProfile, EcError>)
    ensures
        profile == profile_of(byte),
{
    match byte {
        1 => Ok(PowerProfile::Silent),
        2 => Ok(PowerProfile::Default),
        3 => Ok(PowerProfile::Performance),
        _ => Err(EcError::UnknownPowerProfile(byte)),
    }
}

/// Reading the profile.
pub open spec fn read_profile_run(run: EcRun<u8>) -> EcRun<PowerProfile> {
    match run.1 {
        Err(stop) => (run.0, Err(stop)),
        Ok(byte) => match profile_of(byte) {
            Ok(profile) => (run.0, Ok(profile)),
            Err(error) => (run.0, Err(Stop::Failed(error))),
        },
    }
}

/// Switching to a profile.
pub open spec fn switch_run(d: EcTalk, ec: EcDevice, profile: PowerProfile) -> EcRun<()> {
    write_run(
        d,
        ec.rt.port,
        ec.ram(ec.profile.offsets.ram_power_profile),
        profile_byte(profile),
    )
}

/// Reading the profile that the controller is in.
pub open spec fn current_run(d: EcTalk, ec: EcDevice) -> EcRun<PowerProfile> {
    read_profile_run(read_run(d, ec.rt.port, ec.ram(ec.profile.offsets.ram_power_profile)))
}

/// Switches to a profile.
pub fn apply_power_profile(ec: &EcDevice, io: &mut EcIo, profile: &PowerProfile) -> (result: Result<
    IpcResponse,
    Stop<EcError>,
>)
    requires
        ec.rt.addressable(Addr::Ram(ec.profile.offsets.ram_power_profile)),
    ensures
        ({
            let run = switch_run(old(io)@, *ec, *profile);
            &&& final(io)@ == run.0
            &&& match run.1 {
                Ok(()) => result == Ok::<IpcResponse, Stop<EcError>>(IpcResponse::Success),
                Err(stop) => result == Err::<IpcResponse, Stop<EcError>>(stop),
            }
        }),
{
    ec.write(io, Addr::Ram(ec.profile.offsets.ram_power_profile), encode_power_profile(profile))?;
    Ok(IpcResponse::Success)
}

/// Reads the profile.
pub fn read_power_profile(ec: &EcDevice, io: &mut EcIo) -> (result: Result<
    PowerProfile,
    Stop<EcError>,
>)
    requires
        ec.rt.addressable(Addr::Ram(ec.profile.offsets.ram_power_profile)),
    ensures
        (final(io)@, result) == current_run(old(io)@, *ec),
{
    let byte = ec.read(io, Addr::Ram(ec.profile.offsets.ram_power_profile))?;
    match decode_power_profile(byte) {
        Ok(profile) => Ok(profile),
        Err(error) => Err(Stop::Failed(error)),
    }
}

/// The byte that is written for a profile is read as that profile, and no other byte is.
pub proof fn law_power_profile_round_trip(profile: PowerProfile, byte: u8)
    ensures
        profile_of(profile_byte(profile)) == Ok::<PowerProfile, EcError>(profile),
        profile_of(byte) == Ok::<PowerProfile, EcError>(profile) ==> byte == profile_byte(profile),
{
}

/// The bytes of the profiles count them from the quietest on, beginning with one.
pub proof fn law_profile_bytes_count_from_one(profile: PowerProfile)
    ensures
        1 <= profile_byte(profile) <= 3,
        profile is Silent <==> profile_byte(profile) == 1,
        profile is Default <==> profile_byte(profile) == 2,
        profile is Performance <==> profile_byte(profile) == 3,
{
}

/// A byte outside the three is no profile, and is named in the error.
pub proof fn law_other_bytes_are_no_profile(byte: u8)
    ensures
        profile_of(byte) is Ok <==> 1 <= byte <= 3,
        !(1 <= byte <= 3) ==> profile_of(byte) == Err::<PowerProfile, EcError>(
            EcError::UnknownPowerProfile(byte),
        ),
{
}

/// Reading the profile asks for one byte and tells the profile of it; a failure stays a failure.
pub proof fn law_the_profile_that_is_read(run: EcRun<u8>)
    ensures
        read_profile_run(run).0 == run.0,
        run.1 matches Err(stop) ==> read_profile_run(run).1 == Err::<PowerProfile, Stop<EcError>>(
            stop,
        ),
        run.1 matches Ok(byte) ==> match read_profile_run(run).1 {
            Ok(profile) => profile_byte(profile) == byte,
            Err(stop) => (byte == 0 || byte > 3) && stop == Stop::Failed(
                EcError::UnknownPowerProfile(byte),
            ),
        },
{
}

/// Switching to a profile puts its number, from one for silent to three for performance, into the cell
/// that the board keeps it in, and touches no other; a reading of that cell tells the profile again.
pub proof fn law_switching_profiles(
    d: EcTalk,
    ec: EcDevice,
    profile: PowerProfile,
    cells: Map<u16, u8>,
    e: EcTalk,
)
    requires
        0 <= d.used,
        d.used + 3 <= d.replies.len(),
        forall|k: int| d.used <= k < d.used + 3 ==> d.replies[k] == EcReply::Done,
        0 <= e.used,
        e.used + 3 <= e.replies.len(),
        e.replies[e.used] == EcReply::Done,
        e.replies[e.used + 1] == EcReply::Byte(
            written(cells, switch_run(d, ec, profile).0.asked, d.asked.len() as int)[(
            ec.rt.hram_offset + ec.profile.offsets.ram_power_profile) as u16],
        ),
        e.replies[e.used + 2] == EcReply::Done,
    ensures
        ({
            let (end, result) = switch_run(d, ec, profile);
            let kept = written(cells, end.asked, d.asked.len() as int);
            let cell = (ec.rt.hram_offset + ec.profile.offsets.ram_power_profile) as u16;
            &&& result is Ok
            &&& profile is Silent ==> kept[cell] == 1
            &&& profile is Default ==> kept[cell] == 2
            &&& profile is Performance ==> kept[cell] == 3
            &&& kept.dom() == cells.dom().insert(cell)
            &&& forall|addr: u16| addr != cell ==> #[trigger] kept[addr] == cells[addr]
            &&& end.asked == d.asked + seq![
                EcRequest::Lock,
                EcRequest::WriteByte(ec.rt.port, cell, kept[cell]),
                EcRequest::Unlock,
            ]
            &&& current_run(e, ec).1 == Ok::<PowerProfile, Stop<EcError>>(profile)
            &&& current_run(e, ec).0.asked == e.asked + seq![
                EcRequest::Lock,
                EcRequest::ReadByte(ec.rt.port, cell),
                EcRequest::Unlock,
            ]
        }),
{
    let cell = ec.ram(ec.profile.offsets.ram_power_profile);
    let start = d.asked.len() as int;
    let write = EcRequest::WriteByte(ec.rt.port, cell, profile_byte(profile));
    law_a_write_is_the_last_word(cells, d.asked, start, EcRequest::Lock);
    law_a_write_is_the_last_word(cells, d.asked.push(EcRequest::Lock), start, write);
    law_a_write_is_the_last_word(
        cells,
        d.asked.push(EcRequest::Lock).push(write),
        start,
        EcRequest::Unlock,
    );
    assert(switch_run(d, ec, profile).0.asked =~= d.asked.push(EcRequest::Lock).push(write).push(
        EcRequest::Unlock,
    ));
}

} // verus!
