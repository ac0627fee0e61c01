//! The operations of the controller repeat themselves.
use vstd::prelude::*;

use super::{
    continued, ended, followed, law_continuations_repeat, law_sequences_repeat,
    law_waiting_repeats, lemma_ended, repeats, sound, Operation,
};
use crate::ec::codes::Codes;
use crate::ec::device::{
    batch_run, choose_run, detect_run, plausible, read_run, scan_run, start_run, tie_run,
    unlocked, update_run, write_run, writes_run, BoardProfile, EcDevice, EcRuntime,
};
use crate::ec::error::EcError;
use crate::ec::fan::{drive_of, drive_run, fan_writes, FanSelect, MAX_SAFE_DUTY};
use crate::ec::flexicharger::pair_run;
use crate::ec::io::{
    byte_run, chip_run, done_run, flag_run, perform_run, EcReply, EcRequest, EcRun, EcTalk,
    SavedMode,
};
use crate::ec::n161a_charge_hold::{
    await_hold_run, await_native_run, currents_run, enable_hold_run, enable_protection_run,
    hold_again_of, hold_run, hold_shows_run, hold_start_of, if_valid, lemma_look_advances, load_run,
    look_run, native, native_again_of, native_shows_run, native_start_of, protection_run,
    resume_run, status_run, survey_run, word_zero_run, write_hold_run, HoldAgain, HoldStart,
    NativeStart, SavedState, Survey, CONFIRMATION_MS, CURRENT_READBACK_ADDR, CURRENT_TARGET_ADDR,
    POLICY_ADDR, POLL_MS, RSOC_ADDR,
};
use crate::ec::port::{
    done_run as port_done_run, identify_run, in_run, known_chip, probe_only_run, probe_ports,
    probe_run, raw_read_run, raw_write_run, script_run, selection, ChipId, PortReply, PortRequest,
    PortTalk, REG_CHIP_ID1, REG_CHIP_ID2, REG_CHIP_VER,
};
use crate::ec::power_profile::{profile_of, read_profile_run};
use crate::fixed_map::{fan_mode_run, policy_offset, two_writes_run};
use crate::session::Stop;
use crate::types::{FanIndex, FanMode, NativeChargeHoldStatus, PowerProfile};

verus! {

proof fn lemma_done(request: EcRequest)
    ensures
        repeats(|d: EcTalk| done_run(d, request)),
{
}

proof fn lemma_byte(port: u16, addr: u16)
    ensures
        repeats(|d: EcTalk| byte_run(d, port, addr)),
{
}

proof fn lemma_flag(request: EcRequest)
    ensures
        repeats(|d: EcTalk| flag_run(d, request)),
{
}

proof fn lemma_chip(insecure: bool)
    ensures
        repeats(|d: EcTalk| chip_run(d, insecure)),
{
}

proof fn lemma_load()
    ensures
        repeats(|d: EcTalk| load_run(d)),
{
}

proof fn lemma_update(port: u16, addr: u16, mask: u8, val: u8)
    ensures
        repeats(|d: EcTalk| update_run(d, port, addr, mask, val)),
{
}

/// A group of accesses repeats itself, lock and all, if its accesses do.
pub proof fn law_groups_repeat<T>(group: spec_fn(EcTalk) -> EcRun<T>)
    requires
        repeats(group),
    ensures
        repeats(|d: EcTalk| batch_run(d, group)),
{
    let inner = |d: EcTalk| unlocked(group(d));
    let close = |outcome: Result<T, EcError>|
        |d: EcTalk|
            match done_run(d, EcRequest::Unlock) {
                (d, Ok(())) => (
                    d,
                    match outcome {
                        Ok(value) => Ok(value),
                        Err(error) => Err(Stop::Failed(error)),
                    },
                ),
                (d, Err(stop)) => (d, Err(stop)),
            };
    assert forall|outcome: Result<T, EcError>| repeats(#[trigger] close(outcome)) by {}
    law_sequences_repeat(group, close);
    assert(followed(group, close) =~= inner);
    let lock = |d: EcTalk| done_run(d, EcRequest::Lock);
    let rest = |_locked: ()| inner;
    lemma_done(EcRequest::Lock);
    law_continuations_repeat(lock, rest);
    assert(continued(lock, rest) =~= (|d: EcTalk| batch_run(d, group)));
}

/// Reading a byte repeats itself.
pub proof fn law_reading_repeats(port: u16, addr: u16)
    ensures
        repeats(|d: EcTalk| read_run(d, port, addr)),
{
    let group = |d: EcTalk| byte_run(d, port, addr);
    lemma_byte(port, addr);
    law_groups_repeat(group);
    assert((|d: EcTalk| batch_run(d, group)) =~= (|d: EcTalk| read_run(d, port, addr)));
}

/// Writing a byte repeats itself.
pub proof fn law_writing_repeats(port: u16, addr: u16, val: u8)
    ensures
        repeats(|d: EcTalk| write_run(d, port, addr, val)),
{
    let group = |d: EcTalk| done_run(d, EcRequest::WriteByte(port, addr, val));
    lemma_done(EcRequest::WriteByte(port, addr, val));
    law_groups_repeat(group);
    assert((|d: EcTalk| batch_run(d, group)) =~= (|d: EcTalk| write_run(d, port, addr, val)));
}

/// Replacing bits of a byte repeats itself.
pub proof fn law_updating_repeats(port: u16, addr: u16, mask: u8, val: u8)
    ensures
        repeats(|d: EcTalk| batch_run(d, |d: EcTalk| update_run(d, port, addr, mask, val))),
{
    let group = |d: EcTalk| update_run(d, port, addr, mask, val);
    lemma_update(port, addr, mask, val);
    law_groups_repeat(group);
    assert((|d: EcTalk| batch_run(d, group)) =~= (|d: EcTalk|
        batch_run(d, |d: EcTalk| update_run(d, port, addr, mask, val))));
}

/// Writing a list of bytes repeats itself.
pub proof fn law_writing_a_list_repeats(port: u16, list: Seq<(u16, u8)>, i: int)
    ensures
        repeats(|d: EcTalk| writes_run(d, port, list, i)),
    decreases list.len() - i,
{
    let whole = |d: EcTalk| writes_run(d, port, list, i);
    if i < 0 || i >= list.len() {
        lemma_ended::<EcRequest, EcReply, (), EcError>(Ok(()));
        assert(ended::<EcRequest, EcReply, (), EcError>(Ok(())) =~= whole);
    } else {
        let request = EcRequest::WriteByte(port, list[i].0, list[i].1);
        let first = |d: EcTalk| done_run(d, request);
        let others = |d: EcTalk| writes_run(d, port, list, i + 1);
        let rest = |_done: ()| others;
        lemma_done(request);
        law_writing_a_list_repeats(port, list, i + 1);
        law_continuations_repeat(first, rest);
        assert(continued(first, rest) =~= whole);
    }
}

/// A group of writes repeats itself: that of charge thresholds is one.
pub proof fn law_writing_a_group_repeats(port: u16, list: Seq<(u16, u8)>)
    ensures
        repeats(|d: EcTalk| batch_run(d, |d: EcTalk| writes_run(d, port, list, 0))),
{
    let group = |d: EcTalk| writes_run(d, port, list, 0);
    law_writing_a_list_repeats(port, list, 0);
    law_groups_repeat(group);
    assert((|d: EcTalk| batch_run(d, group)) =~= (|d: EcTalk|
        batch_run(d, |d: EcTalk| writes_run(d, port, list, 0))));
}

/// Driving fans repeats itself.
pub proof fn law_driving_fans_repeats(ec: EcDevice, codes: Codes, fan: FanSelect, mode: FanMode)
    ensures
        repeats(|d: EcTalk| drive_run(d, ec, codes, fan, mode)),
{
    let whole = |d: EcTalk| drive_run(d, ec, codes, fan, mode);
    match drive_of(mode) {
        Err(error) => {
            lemma_ended::<EcRequest, EcReply, (), EcError>(Err(error));
            assert(ended::<EcRequest, EcReply, (), EcError>(Err(error)) =~= whole);
        },
        Ok((policy, duty)) => {
            let port = ec.rt.port;
            let list = fan_writes(
                ec.rt.hram_offset,
                ec.profile.offsets,
                codes,
                fan,
                policy,
                duty,
            );
            let group = |d: EcTalk| writes_run(d, port, list, 0);
            law_writing_a_list_repeats(port, list, 0);
            law_groups_repeat(group);
            assert(group =~= (|d: EcTalk|
                writes_run(
                    d,
                    ec.rt.port,
                    fan_writes(ec.rt.hram_offset, ec.profile.offsets, codes, fan, policy, duty),
                    0,
                )));
            assert((|d: EcTalk| batch_run(d, group)) =~= whole);
        },
    }
}

proof fn lemma_two_writes(port: u16, first: u16, policy: u8, second: u16, duty: u8)
    ensures
        repeats(|d: EcTalk| two_writes_run(d, port, first, policy, second, duty)),
{
    let one = |d: EcTalk| write_run(d, port, first, policy);
    let other = |d: EcTalk| write_run(d, port, second, duty);
    let rest = |_done: ()| other;
    law_writing_repeats(port, first, policy);
    law_writing_repeats(port, second, duty);
    law_continuations_repeat(one, rest);
    assert(continued(one, rest) =~= (|d: EcTalk|
        two_writes_run(d, port, first, policy, second, duty)));
}

/// Driving a fan whose registers are at fixed places repeats itself.
pub proof fn law_driving_a_fixed_fan_repeats(
    ec: EcDevice,
    codes: Codes,
    fan: FanIndex,
    mode: FanMode,
)
    ensures
        repeats(|d: EcTalk| fan_mode_run(d, ec, codes, fan, mode)),
{
    let whole = |d: EcTalk| fan_mode_run(d, ec, codes, fan, mode);
    let port = ec.rt.port;
    let first = ec.ram(policy_offset(fan));
    let second = ec.ram(codes.of_fan(fan));
    match mode {
        FanMode::Custom(duty) if duty > MAX_SAFE_DUTY => {
            let result = Err::<(), EcError>(EcError::DutyDangerous);
            lemma_ended::<EcRequest, EcReply, (), EcError>(result);
            assert(ended::<EcRequest, EcReply, (), EcError>(result) =~= whole);
        },
        _ => {
            let (policy, duty): (u8, u8) = match mode {
                FanMode::Auto => (0x00, 0),
                FanMode::Custom(duty) => (0x40, duty),
                _ => (0x40, 150),
            };
            let writes = |d: EcTalk| two_writes_run(d, port, first, policy, second, duty);
            lemma_two_writes(port, first, policy, second, duty);
            assert(writes =~= whole);
        },
    }
}

/// Reading the power profile repeats itself.
pub proof fn law_reading_the_profile_repeats(port: u16, addr: u16)
    ensures
        repeats(|d: EcTalk| read_profile_run(read_run(d, port, addr))),
{
    let read = |d: EcTalk| read_run(d, port, addr);
    let told = |byte: u8| ended::<EcRequest, EcReply, PowerProfile, EcError>(profile_of(byte));
    law_reading_repeats(port, addr);
    assert forall|byte: u8| repeats(#[trigger] told(byte)) by {
        lemma_ended::<EcRequest, EcReply, PowerProfile, EcError>(profile_of(byte));
    }
    law_continuations_repeat(read, told);
    assert(continued(read, told) =~= (|d: EcTalk| read_profile_run(read_run(d, port, addr))));
}

/// Reading a pair of charge thresholds repeats itself.
pub proof fn law_reading_a_pair_repeats(port: u16, low: u16, high: u16)
    ensures
        repeats(|d: EcTalk| batch_run(d, |d: EcTalk| pair_run(d, port, low, high))),
{
    let group = |d: EcTalk| pair_run(d, port, low, high);
    assert(repeats(group));
    law_groups_repeat(group);
    assert((|d: EcTalk| batch_run(d, group)) =~= (|d: EcTalk|
        batch_run(d, |d: EcTalk| pair_run(d, port, low, high))));
}

// ---- Finding the memory window ----

proof fn lemma_scan(port: u16, candidates: Seq<u16>, offset: u16, i: int, found: Seq<u16>)
    ensures
        repeats(|d: EcTalk| scan_run(d, port, candidates, offset, i, found)),
    decreases candidates.len() - i,
{
    let whole = |d: EcTalk| scan_run(d, port, candidates, offset, i, found);
    if i < 0 || i >= candidates.len() {
        lemma_ended::<EcRequest, EcReply, Seq<u16>, EcError>(Ok(found));
        assert(ended::<EcRequest, EcReply, Seq<u16>, EcError>(Ok(found)) =~= whole);
    } else {
        let addr = (candidates[i] + offset) as u16;
        let first = |d: EcTalk| read_run(d, port, addr);
        let longer = found.push(candidates[i]);
        let kept = |d: EcTalk| scan_run(d, port, candidates, offset, i + 1, longer);
        let passed = |d: EcTalk| scan_run(d, port, candidates, offset, i + 1, found);
        let next = |outcome: Result<u8, EcError>|
            match outcome {
                Ok(value) => if plausible(value) {
                    kept
                } else {
                    passed
                },
                Err(_) => passed,
            };
        law_reading_repeats(port, addr);
        lemma_scan(port, candidates, offset, i + 1, longer);
        lemma_scan(port, candidates, offset, i + 1, found);
        law_sequences_repeat(first, next);
        assert(followed(first, next) =~= whole);
    }
}

proof fn lemma_tie(port: u16, windows: Seq<u16>, offset: u16, i: int)
    ensures
        repeats(|d: EcTalk| tie_run(d, port, windows, offset, i)),
    decreases windows.len() - i,
{
    let whole = |d: EcTalk| tie_run(d, port, windows, offset, i);
    if i < 0 || i >= windows.len() {
        lemma_ended::<EcRequest, EcReply, Option<u16>, EcError>(Ok(None));
        assert(ended::<EcRequest, EcReply, Option<u16>, EcError>(Ok(None)) =~= whole);
    } else {
        let addr = (windows[i] + offset) as u16;
        let first = |d: EcTalk| read_run(d, port, addr);
        let taken = ended::<EcRequest, EcReply, Option<u16>, EcError>(Ok(Some(windows[i])));
        let passed = |d: EcTalk| tie_run(d, port, windows, offset, i + 1);
        let next = |outcome: Result<u8, EcError>|
            match outcome {
                Ok(value) => if value <= 100 {
                    taken
                } else {
                    passed
                },
                Err(_) => passed,
            };
        law_reading_repeats(port, addr);
        lemma_ended::<EcRequest, EcReply, Option<u16>, EcError>(Ok(Some(windows[i])));
        lemma_tie(port, windows, offset, i + 1);
        law_sequences_repeat(first, next);
        assert(followed(first, next) =~= whole);
    }
}

proof fn lemma_choose(port: u16, found: Seq<u16>, rsoc: Option<u16>)
    ensures
        repeats(|d: EcTalk| choose_run(d, port, found, rsoc)),
{
    let whole = |d: EcTalk| choose_run(d, port, found, rsoc);
    if found.len() == 0 {
        let result = Err::<u16, EcError>(EcError::HramNotFound);
        lemma_ended::<EcRequest, EcReply, u16, EcError>(result);
        assert(ended::<EcRequest, EcReply, u16, EcError>(result) =~= whole);
    } else if found.len() == 1 || rsoc is None {
        let result = Ok::<u16, EcError>(found[0]);
        lemma_ended::<EcRequest, EcReply, u16, EcError>(result);
        assert(ended::<EcRequest, EcReply, u16, EcError>(result) =~= whole);
    } else {
        let offset = rsoc->0;
        let first = |d: EcTalk| tie_run(d, port, found, offset, 0);
        let next = |outcome: Result<Option<u16>, EcError>|
            ended::<EcRequest, EcReply, u16, EcError>(
                match outcome {
                    Ok(Some(window)) => Ok(window),
                    Ok(None) => Ok(found[0]),
                    Err(error) => Err(error),
                },
            );
        lemma_tie(port, found, offset, 0);
        assert forall|outcome: Result<Option<u16>, EcError>| repeats(#[trigger] next(outcome)) by {}
        law_sequences_repeat(first, next);
        assert(followed(first, next) =~= whole);
    }
}

/// Finding the memory window repeats itself.
pub proof fn law_detection_repeats(port: u16, profile: BoardProfile)
    ensures
        repeats(|d: EcTalk| detect_run(d, port, profile)),
{
    let whole = |d: EcTalk| detect_run(d, port, profile);
    match profile.cpu_offset() {
        None => {
            let result = Err::<u16, EcError>(EcError::NoRamSensor);
            lemma_ended::<EcRequest, EcReply, u16, EcError>(result);
            assert(ended::<EcRequest, EcReply, u16, EcError>(result) =~= whole);
        },
        Some(offset) => {
            let candidates = profile.hram_candidates@;
            let rsoc = profile.rsoc_offset();
            let first = |d: EcTalk| scan_run(d, port, candidates, offset, 0, Seq::empty());
            let rest = |found: Seq<u16>| (|d: EcTalk| choose_run(d, port, found, rsoc));
            lemma_scan(port, candidates, offset, 0, Seq::empty());
            assert forall|found: Seq<u16>| repeats(#[trigger] rest(found)) by {
                lemma_choose(port, found, rsoc);
                assert(rest(found) =~= (|d: EcTalk| choose_run(d, port, found, rsoc)));
            }
            law_continuations_repeat(first, rest);
            assert(continued(first, rest) =~= whole);
        },
    }
}

/// Taking a board into use repeats itself.
pub proof fn law_starting_a_board_repeats(profile: BoardProfile, insecure: bool)
    ensures
        repeats(|d: EcTalk| start_run(d, profile, insecure)),
{
    let detect = |port: u16| (|d: EcTalk| detect_run(d, port, profile));
    let fill = |chip: (u16, (u8, u8, u8))|
        (|hram_offset: u16|
            ended::<EcRequest, EcReply, EcRuntime, EcError>(
                Ok(
                    EcRuntime {
                        port: chip.0,
                        hram_offset,
                        chip_id1: chip.1.0,
                        chip_id2: chip.1.1,
                        chip_ver: chip.1.2,
                    },
                ),
            ));
    let probe = |d: EcTalk| chip_run(d, insecure);
    let found = |chip: (u16, (u8, u8, u8))| continued(detect(chip.0), fill(chip));
    assert forall|chip: (u16, (u8, u8, u8))| repeats(#[trigger] found(chip)) by {
        let last = fill(chip);
        let port = chip.0;
        law_detection_repeats(port, profile);
        assert((|d: EcTalk| detect_run(d, port, profile)) =~= detect(port));
        assert forall|window: u16| repeats(#[trigger] last(window)) by {}
        law_continuations_repeat(detect(port), last);
    }
    lemma_chip(insecure);
    law_continuations_repeat(probe, found);
    let probed = continued(probe, found);
    let open = |d: EcTalk| done_run(d, EcRequest::OpenPorts);
    let opened = |_done: ()| probed;
    lemma_done(EcRequest::OpenPorts);
    law_continuations_repeat(open, opened);
    assert(continued(open, opened) =~= (|d: EcTalk| start_run(d, profile, insecure)));
}

// ---- The charge hold ----

proof fn lemma_currents(port: u16)
    ensures
        repeats(|d: EcTalk| currents_run(d, port)),
{
    let target = |d: EcTalk| word_zero_run(d, port, CURRENT_TARGET_ADDR);
    let readback = |d: EcTalk| word_zero_run(d, port, CURRENT_READBACK_ADDR);
    lemma_word(port, CURRENT_TARGET_ADDR);
    lemma_word(port, CURRENT_READBACK_ADDR);
    let pair = |first: bool|
        (|second: bool| ended::<EcRequest, EcReply, (bool, bool), EcError>(Ok((first, second))));
    let rest = |first: bool| continued(readback, pair(first));
    assert forall|first: bool| repeats(#[trigger] rest(first)) by {
        let last = pair(first);
        assert forall|second: bool| repeats(#[trigger] last(second)) by {}
        law_continuations_repeat(readback, last);
    }
    law_continuations_repeat(target, rest);
    assert(continued(target, rest) =~= (|d: EcTalk| currents_run(d, port)));
}

proof fn lemma_word(port: u16, addr: u16)
    ensures
        repeats(|d: EcTalk| word_zero_run(d, port, addr)),
{
}

proof fn lemma_look(port: u16)
    ensures
        repeats(|d: EcTalk| look_run(d, port)),
{
    let policy = |d: EcTalk| byte_run(d, port, POLICY_ADDR);
    let currents = |d: EcTalk| currents_run(d, port);
    lemma_byte(port, POLICY_ADDR);
    lemma_currents(port);
    let fill = |byte: u8|
        (|zero: (bool, bool)|
            ended::<EcRequest, EcReply, (u8, bool, bool), EcError>(Ok((byte, zero.0, zero.1))));
    let rest = |byte: u8| continued(currents, fill(byte));
    assert forall|byte: u8| repeats(#[trigger] rest(byte)) by {
        let last = fill(byte);
        assert forall|zero: (bool, bool)| repeats(#[trigger] last(zero)) by {}
        law_continuations_repeat(currents, last);
    }
    law_continuations_repeat(policy, rest);
    assert(continued(policy, rest) =~= (|d: EcTalk| look_run(d, port)));
}

proof fn lemma_survey(port: u16)
    ensures
        repeats(|d: EcTalk| survey_run(d, port)),
{
    let charge = |d: EcTalk| byte_run(d, port, RSOC_ADDR);
    let look = |d: EcTalk| look_run(d, port);
    lemma_byte(port, RSOC_ADDR);
    lemma_look(port);
    let fill = |rsoc: u8|
        (|seen: (u8, bool, bool)|
            ended::<EcRequest, EcReply, Survey, EcError>(
                Ok(
                    Survey {
                        rsoc,
                        policy: seen.0,
                        target_zero: seen.1,
                        readback_zero: seen.2,
                    },
                ),
            ));
    let rest = |rsoc: u8| continued(look, fill(rsoc));
    assert forall|rsoc: u8| repeats(#[trigger] rest(rsoc)) by {
        let last = fill(rsoc);
        assert forall|seen: (u8, bool, bool)| repeats(#[trigger] last(seen)) by {}
        law_continuations_repeat(look, last);
    }
    law_continuations_repeat(charge, rest);
    assert(continued(charge, rest) =~= (|d: EcTalk| survey_run(d, port)));
}

/// Telling what the charger is doing repeats itself.
pub proof fn law_status_repeats(port: u16)
    ensures
        repeats(|d: EcTalk| batch_run(d, |d: EcTalk| status_run(d, port))),
{
    let group = |d: EcTalk| status_run(d, port);
    let charge = |d: EcTalk| byte_run(d, port, RSOC_ADDR);
    let policy = |d: EcTalk| byte_run(d, port, POLICY_ADDR);
    let load = |d: EcTalk| load_run(d);
    let told = |rsoc: u8|
        (|outcome: Result<SavedState, EcError>|
            ended::<EcRequest, EcReply, NativeChargeHoldStatus, EcError>(
                match outcome {
                    Ok(SavedState { original: _, mode: SavedMode::Native }) => Ok(
                        NativeChargeHoldStatus::NativeProtection { rsoc },
                    ),
                    _ => Ok(NativeChargeHoldStatus::Holding { rsoc }),
                },
            ));
    let by_policy = |rsoc: u8|
        (|byte: u8|
            if native(byte) {
                followed(load, told(rsoc))
            } else {
                ended(Ok(NativeChargeHoldStatus::Normal { rsoc }))
            });
    let rest = |rsoc: u8| continued(policy, by_policy(rsoc));
    lemma_byte(port, RSOC_ADDR);
    lemma_byte(port, POLICY_ADDR);
    lemma_load();
    assert forall|rsoc: u8| repeats(#[trigger] rest(rsoc)) by {
        let decide = by_policy(rsoc);
        assert forall|byte: u8| repeats(#[trigger] decide(byte)) by {
            let last = told(rsoc);
            assert forall|outcome: Result<SavedState, EcError>| repeats(
                #[trigger] last(outcome),
            ) by {}
            law_sequences_repeat(load, last);
            lemma_ended::<EcRequest, EcReply, NativeChargeHoldStatus, EcError>(
                Ok(NativeChargeHoldStatus::Normal { rsoc }),
            );
        }
        law_continuations_repeat(policy, decide);
    }
    law_continuations_repeat(charge, rest);
    assert(continued(charge, rest) =~= group);
    law_groups_repeat(group);
    assert((|d: EcTalk| batch_run(d, group)) =~= (|d: EcTalk|
        batch_run(d, |d: EcTalk| status_run(d, port))));
}

/// One look at the charger while `wanted` is waited for; `late` is the error after the deadline.
spec fn look_step(port: u16, wanted: spec_fn((u8, bool, bool)) -> bool, late: EcError) -> Operation<
    EcRequest,
    EcReply,
    bool,
    EcError,
> {
    |d: EcTalk|
        match batch_run(d, |d: EcTalk| look_run(d, port)) {
            (d1, Err(stop)) => (d1, Err(stop)),
            (d1, Ok(seen)) => if wanted(seen) {
                (d1, Ok(true))
            } else {
                pause_run(d1, late)
            },
        }
}

/// The pause between two looks.
spec fn pause_run(d: EcTalk, late: EcError) -> EcRun<bool> {
    match flag_run(d, EcRequest::TimerExpired) {
        (d, Err(stop)) => (d, Err(stop)),
        (d, Ok(true)) => (d, Err(Stop::Failed(late))),
        (d, Ok(false)) => match done_run(d, EcRequest::Sleep(POLL_MS)) {
            (d, Err(stop)) => (d, Err(stop)),
            (d, Ok(())) => (d, Ok(false)),
        },
    }
}

proof fn lemma_pause(late: EcError)
    ensures
        repeats(|d: EcTalk| pause_run(d, late)),
{
}

proof fn lemma_look_step(port: u16, wanted: spec_fn((u8, bool, bool)) -> bool, late: EcError)
    ensures
        repeats(look_step(port, wanted, late)),
{
    let group = |d: EcTalk| look_run(d, port);
    let look = |d: EcTalk| batch_run(d, group);
    let pause = |d: EcTalk| pause_run(d, late);
    let rest = |seen: (u8, bool, bool)|
        if wanted(seen) {
            ended(Ok(true))
        } else {
            pause
        };
    lemma_look(port);
    law_groups_repeat(group);
    lemma_pause(late);
    assert forall|seen: (u8, bool, bool)| repeats(#[trigger] rest(seen)) by {
        lemma_ended::<EcRequest, EcReply, bool, EcError>(Ok(true));
    }
    law_continuations_repeat(look, rest);
    assert(group =~= (|d: EcTalk| look_run(d, port)));
    assert(continued(look, rest) =~= look_step(port, wanted, late));
}

/// Waiting for a hold repeats itself.
pub proof fn law_waiting_for_a_hold_repeats(port: u16, expected: u8)
    ensures
        repeats(|d: EcTalk| await_hold_run(d, port, expected)),
{
    let wanted = |seen: (u8, bool, bool)|
        (seen.0 == expected || native(seen.0)) && seen.1 && seen.2;
    let late = EcError::HoldNotConfirmed;
    let step = look_step(port, wanted, late);
    let whole = |d: EcTalk| hold_shows_run(d, port, expected);
    lemma_look_step(port, wanted, late);
    assert forall|d: EcTalk| sound(d) implies #[trigger] whole(d) == match step(d) {
        (d, Ok(true)) => (d, Ok(())),
        (d, Ok(false)) => whole(d),
        (d, Err(stop)) => (d, Err(stop)),
    } && (step(d).1 == Ok::<bool, Stop<EcError>>(false) ==> step(d).0.used > d.used) by {
        lemma_look_advances(d, port);
    }
    law_waiting_repeats(step, whole);
    let timer = |d: EcTalk| done_run(d, EcRequest::StartTimer(CONFIRMATION_MS));
    let rest = |_set: ()| whole;
    lemma_done(EcRequest::StartTimer(CONFIRMATION_MS));
    law_continuations_repeat(timer, rest);
    assert(continued(timer, rest) =~= (|d: EcTalk| await_hold_run(d, port, expected)));
}

/// Waiting for native protection repeats itself.
pub proof fn law_waiting_for_protection_repeats(port: u16)
    ensures
        repeats(|d: EcTalk| await_native_run(d, port)),
{
    let wanted = |seen: (u8, bool, bool)| native(seen.0) && !seen.1 && !seen.2;
    let late = EcError::NativeNotConfirmed;
    let step = look_step(port, wanted, late);
    let whole = |d: EcTalk| native_shows_run(d, port);
    lemma_look_step(port, wanted, late);
    assert forall|d: EcTalk| sound(d) implies #[trigger] whole(d) == match step(d) {
        (d, Ok(true)) => (d, Ok(())),
        (d, Ok(false)) => whole(d),
        (d, Err(stop)) => (d, Err(stop)),
    } && (step(d).1 == Ok::<bool, Stop<EcError>>(false) ==> step(d).0.used > d.used) by {
        lemma_look_advances(d, port);
    }
    law_waiting_repeats(step, whole);
    let timer = |d: EcTalk| done_run(d, EcRequest::StartTimer(CONFIRMATION_MS));
    let rest = |_set: ()| whole;
    lemma_done(EcRequest::StartTimer(CONFIRMATION_MS));
    law_continuations_repeat(timer, rest);
    assert(continued(timer, rest) =~= (|d: EcTalk| await_native_run(d, port)));
}

proof fn lemma_write_hold(port: u16, policy: u8)
    ensures
        repeats(|d: EcTalk| write_hold_run(d, port, policy)),
{
    let write = |d: EcTalk| write_run(d, port, POLICY_ADDR, policy);
    let wait = |d: EcTalk| await_hold_run(d, port, policy);
    let rest = |_done: ()| wait;
    law_writing_repeats(port, POLICY_ADDR, policy);
    law_waiting_for_a_hold_repeats(port, policy);
    law_continuations_repeat(write, rest);
    assert(continued(write, rest) =~= (|d: EcTalk| write_hold_run(d, port, policy)));
}

proof fn lemma_valid()
    ensures
        repeats(|d: EcTalk| if_valid(load_run(d))),
{
}

proof fn lemma_hold(port: u16, seen: Survey)
    ensures
        repeats(|d: EcTalk| hold_run(d, port, seen)),
{
    let whole = |d: EcTalk| hold_run(d, port, seen);
    match hold_start_of(seen) {
        HoldStart::Refuse(error) => {
            lemma_ended::<EcRequest, EcReply, (), EcError>(Err(error));
            assert(ended::<EcRequest, EcReply, (), EcError>(Err(error)) =~= whole);
        },
        HoldStart::Consult => {
            let load = |d: EcTalk| if_valid(load_run(d));
            let rest = |saved: Option<SavedState>|
                (|d: EcTalk|
                    match hold_again_of(seen, saved) {
                        HoldAgain::Refuse(error) => (d, Err(Stop::Failed(error))),
                        HoldAgain::Active => (d, Ok(())),
                        HoldAgain::Rearm(policy) => write_hold_run(d, port, policy),
                    });
            lemma_valid();
            assert forall|saved: Option<SavedState>| repeats(#[trigger] rest(saved)) by {
                match hold_again_of(seen, saved) {
                    HoldAgain::Refuse(error) => {
                        lemma_ended::<EcRequest, EcReply, (), EcError>(Err(error));
                        assert(ended::<EcRequest, EcReply, (), EcError>(Err(error)) =~= rest(
                            saved,
                        ));
                    },
                    HoldAgain::Active => {
                        lemma_ended::<EcRequest, EcReply, (), EcError>(Ok(()));
                        assert(ended::<EcRequest, EcReply, (), EcError>(Ok(())) =~= rest(saved));
                    },
                    HoldAgain::Rearm(policy) => {
                        lemma_write_hold(port, policy);
                        assert((|d: EcTalk| write_hold_run(d, port, policy)) =~= rest(saved));
                    },
                }
            }
            law_continuations_repeat(load, rest);
            assert(continued(load, rest) =~= whole);
        },
        HoldStart::Arm(target) => {
            let request = EcRequest::SaveState { original: seen.policy, mode: SavedMode::Hold };
            let save = |d: EcTalk| done_run(d, request);
            let write = |d: EcTalk| write_hold_run(d, port, target);
            let rest = |_saved: ()| write;
            lemma_done(request);
            lemma_write_hold(port, target);
            law_continuations_repeat(save, rest);
            assert(continued(save, rest) =~= whole);
        },
    }
}

/// Holding the charge repeats itself.
pub proof fn law_holding_repeats(port: u16)
    ensures
        repeats(|d: EcTalk| enable_hold_run(d, port)),
{
    let group = |d: EcTalk| survey_run(d, port);
    let survey = |d: EcTalk| batch_run(d, group);
    let rest = |seen: Survey| (|d: EcTalk| hold_run(d, port, seen));
    lemma_survey(port);
    law_groups_repeat(group);
    assert forall|seen: Survey| repeats(#[trigger] rest(seen)) by {
        lemma_hold(port, seen);
        assert((|d: EcTalk| hold_run(d, port, seen)) =~= rest(seen));
    }
    law_continuations_repeat(survey, rest);
    assert(group =~= (|d: EcTalk| survey_run(d, port)));
    assert(continued(survey, rest) =~= (|d: EcTalk| enable_hold_run(d, port)));
}

proof fn lemma_protection(port: u16, seen: Survey)
    ensures
        repeats(|d: EcTalk| protection_run(d, port, seen)),
{
    let whole = |d: EcTalk| protection_run(d, port, seen);
    match native_start_of(seen) {
        NativeStart::Refuse(error) => {
            lemma_ended::<EcRequest, EcReply, (), EcError>(Err(error));
            assert(ended::<EcRequest, EcReply, (), EcError>(Err(error)) =~= whole);
        },
        NativeStart::Consult => {
            let load = |d: EcTalk| if_valid(load_run(d));
            let rest = |saved: Option<SavedState>|
                ended::<EcRequest, EcReply, (), EcError>(native_again_of(saved));
            lemma_valid();
            assert forall|saved: Option<SavedState>| repeats(#[trigger] rest(saved)) by {
                lemma_ended::<EcRequest, EcReply, (), EcError>(native_again_of(saved));
            }
            law_continuations_repeat(load, rest);
            assert(continued(load, rest) =~= whole);
        },
        NativeStart::Arm(target) => {
            let request = EcRequest::SaveState { original: seen.policy, mode: SavedMode::Native };
            let save = |d: EcTalk| done_run(d, request);
            let write = |d: EcTalk| write_run(d, port, POLICY_ADDR, target);
            let wait = |d: EcTalk| await_native_run(d, port);
            let waited = |_done: ()| wait;
            let written = continued(write, waited);
            let rest = |_saved: ()| written;
            lemma_done(request);
            law_writing_repeats(port, POLICY_ADDR, target);
            law_waiting_for_protection_repeats(port);
            law_continuations_repeat(write, waited);
            law_continuations_repeat(save, rest);
            assert(continued(save, rest) =~= whole);
        },
    }
}

/// Arming the firmware's own protection repeats itself.
pub proof fn law_protecting_repeats(port: u16)
    ensures
        repeats(|d: EcTalk| enable_protection_run(d, port)),
{
    let group = |d: EcTalk| survey_run(d, port);
    let survey = |d: EcTalk| batch_run(d, group);
    let rest = |seen: Survey| (|d: EcTalk| protection_run(d, port, seen));
    lemma_survey(port);
    law_groups_repeat(group);
    assert forall|seen: Survey| repeats(#[trigger] rest(seen)) by {
        lemma_protection(port, seen);
        assert((|d: EcTalk| protection_run(d, port, seen)) =~= rest(seen));
    }
    law_continuations_repeat(survey, rest);
    assert(group =~= (|d: EcTalk| survey_run(d, port)));
    assert(continued(survey, rest) =~= (|d: EcTalk| enable_protection_run(d, port)));
}

/// Resuming normal charging repeats itself.
pub proof fn law_resuming_repeats(port: u16)
    ensures
        repeats(|d: EcTalk| resume_run(d, port)),
{
    let read = |d: EcTalk| read_run(d, port, POLICY_ADDR);
    let existing = |d: EcTalk| flag_run(d, EcRequest::StateExists);
    let remove = |d: EcTalk| done_run(d, EcRequest::RemoveState);
    let removed = |_done: ()| remove;
    let load = |d: EcTalk| load_run(d);
    let tidy = |there: bool|
        if there {
            remove
        } else {
            ended(Ok(()))
        };
    let write = |saved: SavedState| (|d: EcTalk| write_run(d, port, POLICY_ADDR, saved.original));
    let restore = |saved: SavedState| continued(write(saved), removed);
    let inactive = continued(existing, tidy);
    let active = continued(load, restore);
    let rest = |policy: u8|
        if native(policy) {
            active
        } else {
            inactive
        };
    law_reading_repeats(port, POLICY_ADDR);
    lemma_flag(EcRequest::StateExists);
    lemma_done(EcRequest::RemoveState);
    lemma_load();
    assert forall|there: bool| repeats(#[trigger] tidy(there)) by {
        lemma_ended::<EcRequest, EcReply, (), EcError>(Ok(()));
    }
    law_continuations_repeat(existing, tidy);
    assert forall|saved: SavedState| repeats(#[trigger] restore(saved)) by {
        law_writing_repeats(port, POLICY_ADDR, saved.original);
        assert((|d: EcTalk| write_run(d, port, POLICY_ADDR, saved.original)) =~= write(saved));
        law_continuations_repeat(write(saved), removed);
    }
    law_continuations_repeat(load, restore);
    law_continuations_repeat(read, rest);
    assert(continued(read, rest) =~= (|d: EcTalk| resume_run(d, port)));
}

// ---- The ports ----

proof fn lemma_port_done(request: PortRequest)
    ensures
        repeats(|d: PortTalk| port_done_run(d, request)),
{
}

proof fn lemma_port_in(port: u16)
    ensures
        repeats(|d: PortTalk| in_run(d, port)),
{
}

proof fn lemma_script(script: Seq<(u16, u8)>, i: int)
    ensures
        repeats(|d: PortTalk| script_run(d, script, i)),
    decreases script.len() - i,
{
    let whole = |d: PortTalk| script_run(d, script, i);
    if i < 0 || i >= script.len() {
        lemma_ended::<PortRequest, PortReply, (), EcError>(Ok(()));
        assert(ended::<PortRequest, PortReply, (), EcError>(Ok(())) =~= whole);
    } else {
        let request = PortRequest::Out(script[i].0, script[i].1);
        let first = |d: PortTalk| port_done_run(d, request);
        let others = |d: PortTalk| script_run(d, script, i + 1);
        let rest = |_done: ()| others;
        lemma_port_done(request);
        lemma_script(script, i + 1);
        law_continuations_repeat(first, rest);
        assert(continued(first, rest) =~= whole);
    }
}

/// Reading a cell through the ports repeats itself.
pub proof fn law_reading_a_cell_repeats(port: u16, addr: u16)
    ensures
        repeats(|d: PortTalk| raw_read_run(d, port, addr)),
{
    let script = selection(port, addr);
    let data = (port + 1) as u16;
    let select = |d: PortTalk| script_run(d, script, 0);
    let read = |d: PortTalk| in_run(d, data);
    let rest = |_done: ()| read;
    lemma_script(script, 0);
    lemma_port_in(data);
    law_continuations_repeat(select, rest);
    assert(continued(select, rest) =~= (|d: PortTalk| raw_read_run(d, port, addr)));
}

/// Writing a cell through the ports repeats itself.
pub proof fn law_writing_a_cell_repeats(port: u16, addr: u16, val: u8)
    ensures
        repeats(|d: PortTalk| raw_write_run(d, port, addr, val)),
{
    let script = selection(port, addr).push(((port + 1) as u16, val));
    lemma_script(script, 0);
    assert((|d: PortTalk| script_run(d, script, 0)) =~= (|d: PortTalk|
        raw_write_run(d, port, addr, val)));
}

proof fn lemma_identify(port: u16, id1: u8)
    ensures
        repeats(|d: PortTalk| identify_run(d, port, id1)),
{
    let raw2 = |d: PortTalk| raw_read_run(d, port, REG_CHIP_ID2);
    let raw3 = |d: PortTalk| raw_read_run(d, port, REG_CHIP_VER);
    let zero = |outcome: Result<u8, EcError>|
        ended::<PortRequest, PortReply, u8, EcError>(
            Ok(
                match outcome {
                    Ok(byte) => byte,
                    Err(_) => 0,
                },
            ),
        );
    law_reading_a_cell_repeats(port, REG_CHIP_ID2);
    law_reading_a_cell_repeats(port, REG_CHIP_VER);
    assert forall|outcome: Result<u8, EcError>| repeats(#[trigger] zero(outcome)) by {}
    law_sequences_repeat(raw2, zero);
    law_sequences_repeat(raw3, zero);
    let second = followed(raw2, zero);
    let third = followed(raw3, zero);
    let fill = |id2: u8|
        (|ver: u8|
            ended::<PortRequest, PortReply, (u16, ChipId), EcError>(Ok((port, (id1, id2, ver)))));
    let rest = |id2: u8| continued(third, fill(id2));
    assert forall|id2: u8| repeats(#[trigger] rest(id2)) by {
        let last = fill(id2);
        assert forall|ver: u8| repeats(#[trigger] last(ver)) by {}
        law_continuations_repeat(third, last);
    }
    law_continuations_repeat(second, rest);
    assert(continued(second, rest) =~= (|d: PortTalk| identify_run(d, port, id1)));
}

/// Looking for a chip repeats itself.
pub proof fn law_probing_repeats(i: int, insecure: bool)
    ensures
        repeats(|d: PortTalk| probe_run(d, i, insecure)),
    decreases probe_ports().len() - i,
{
    let whole = |d: PortTalk| probe_run(d, i, insecure);
    if i < 0 || i >= probe_ports().len() {
        let result = if insecure {
            Ok::<(u16, ChipId), EcError>((probe_ports().last(), (0, 0, 0)))
        } else {
            Err(EcError::ChipNotFound)
        };
        lemma_ended::<PortRequest, PortReply, (u16, ChipId), EcError>(result);
        assert(ended::<PortRequest, PortReply, (u16, ChipId), EcError>(result) =~= whole);
    } else {
        let port = probe_ports()[i];
        let first = |d: PortTalk| raw_read_run(d, port, REG_CHIP_ID1);
        let others = |d: PortTalk| probe_run(d, i + 1, insecure);
        let identify = |id1: u8| (|d: PortTalk| identify_run(d, port, id1));
        let next = |outcome: Result<u8, EcError>|
            match outcome {
                Ok(id1) => if known_chip(id1) {
                    identify(id1)
                } else {
                    others
                },
                Err(_) => others,
            };
        law_reading_a_cell_repeats(port, REG_CHIP_ID1);
        law_probing_repeats(i + 1, insecure);
        assert forall|outcome: Result<u8, EcError>| repeats(#[trigger] next(outcome)) by {
            if let Ok(id1) = outcome {
                lemma_identify(port, id1);
                assert((|d: PortTalk| identify_run(d, port, id1)) =~= identify(id1));
            }
        }
        law_sequences_repeat(first, next);
        assert(followed(first, next) =~= whole);
    }
}

/// Looking for a chip on a board that is not supported repeats itself.
pub proof fn law_probing_alone_repeats()
    ensures
        repeats(|d: PortTalk| probe_only_run(d)),
{
    let open = |d: PortTalk| port_done_run(d, PortRequest::Open);
    let probe = |d: PortTalk| probe_run(d, 0, false);
    let told = |outcome: Result<(u16, ChipId), EcError>|
        ended::<PortRequest, PortReply, Option<ChipId>, EcError>(
            Ok(
                match outcome {
                    Ok((_, chip)) => Some(chip),
                    Err(_) => None,
                },
            ),
        );
    let probed = followed(probe, told);
    let next = |outcome: Result<(), EcError>|
        match outcome {
            Ok(()) => probed,
            Err(_) => ended(Ok(None)),
        };
    lemma_port_done(PortRequest::Open);
    law_probing_repeats(0, false);
    assert forall|outcome: Result<(u16, ChipId), EcError>| repeats(#[trigger] told(outcome)) by {}
    law_sequences_repeat(probe, told);
    assert forall|outcome: Result<(), EcError>| repeats(#[trigger] next(outcome)) by {
        lemma_ended::<PortRequest, PortReply, Option<ChipId>, EcError>(Ok(None));
    }
    law_sequences_repeat(open, next);
    assert(followed(open, next) =~= (|d: PortTalk| probe_only_run(d)));
}

/// Carrying a request out on the ports repeats itself.
pub proof fn law_performing_repeats(request: EcRequest)
    ensures
        repeats(|d: PortTalk| perform_run(d, request)),
{
    let whole = |d: PortTalk| perform_run(d, request);
    let finished = |_done: ()| ended::<PortRequest, PortReply, EcReply, EcError>(Ok(EcReply::Done));
    assert forall|done: ()| repeats(#[trigger] finished(done)) by {}
    match request {
        EcRequest::OpenPorts => {
            let open = |d: PortTalk| port_done_run(d, PortRequest::Open);
            lemma_port_done(PortRequest::Open);
            law_continuations_repeat(open, finished);
            assert(continued(open, finished) =~= whole);
        },
        EcRequest::ProbeChip(insecure) => {
            let probe = |d: PortTalk| probe_run(d, 0, insecure);
            let told = |found: (u16, ChipId)|
                ended::<PortRequest, PortReply, EcReply, EcError>(
                    Ok(
                        EcReply::Chip {
                            port: found.0,
                            id1: found.1.0,
                            id2: found.1.1,
                            ver: found.1.2,
                        },
                    ),
                );
            law_probing_repeats(0, insecure);
            assert forall|found: (u16, ChipId)| repeats(#[trigger] told(found)) by {}
            law_continuations_repeat(probe, told);
            assert(continued(probe, told) =~= whole);
        },
        EcRequest::ReadByte(port, addr) => {
            let read = |d: PortTalk| raw_read_run(d, port, addr);
            let told = |byte: u8|
                ended::<PortRequest, PortReply, EcReply, EcError>(Ok(EcReply::Byte(byte)));
            law_reading_a_cell_repeats(port, addr);
            assert forall|byte: u8| repeats(#[trigger] told(byte)) by {}
            law_continuations_repeat(read, told);
            assert(continued(read, told) =~= whole);
        },
        EcRequest::WriteByte(port, addr, val) => {
            let write = |d: PortTalk| raw_write_run(d, port, addr, val);
            law_writing_a_cell_repeats(port, addr, val);
            law_continuations_repeat(write, finished);
            assert(continued(write, finished) =~= whole);
        },
        _ => {
            let result = Err::<EcReply, EcError>(EcError::UnexpectedReply);
            lemma_ended::<PortRequest, PortReply, EcReply, EcError>(result);
            assert(ended::<PortRequest, PortReply, EcReply, EcError>(result) =~= whole);
        },
    }
}

} // verus!
