//! The charge hold and the native charge protection of the N161A.
//!
//! The policy byte of the firmware is changed only after the byte that was there has been put into
//! the restore file, so that [`resume_native_charging`] can put it back.
use vstd::prelude::*;

use super::device::{
    batch_run, law_a_group_holds_the_lock, lemma_batch_is_quiet, read_run, write_run, Addr, EcBatch,
    EcDevice,
};
use super::error::EcError;
use super::io::{
    byte_run, done, done_run, flag, flag_run, quiet, EcIo, EcReply, EcRequest, EcRun, EcTalk,
    SavedMode,
};
use crate::session::{asks, continues, Stop};
use crate::text::{
    after, around, characters, chomp, hex, hex_byte, hex_number, hex_text, is_space,
    law_prefix_and_rest, lemma_first_line, lemma_hex_byte_round_trip, lemma_only_line,
    lemma_prefix_of_number, lines, parse_hex_byte, spells, split_lines, strip, texts, trim, trim_end, trimmed,
};
use crate::types::NativeChargeHoldStatus;

verus! {

pub const POLICY_ADDR: u16 = 0x0414;

pub const RSOC_ADDR: u16 = 0x050F;

pub const CURRENT_TARGET_ADDR: u16 = 0x05D4;

pub const CURRENT_READBACK_ADDR: u16 = 0x05E4;

pub const NATIVE_MODE_MASK: u8 = 0x13;

pub const PRELATCHED_MODE_MASK: u8 = 0x17;

/// How long a changed policy may take to show its effect, in milliseconds.
pub const CONFIRMATION_MS: u64 = 15_000;

/// The pause between two looks, in milliseconds.
pub const POLL_MS: u64 = 250;

/// What the restore file holds: the policy byte that was replaced, and by which mode.
#[derive(Clone, Copy, PartialEq, Eq, Debug, Structural)]
pub struct SavedState {
    pub original: u8,
    pub mode: SavedMode,
}

// ---- The restore file ----

/// The word for a mode.
pub open spec fn mode_word(mode: SavedMode) -> Seq<char> {
    match mode {
        SavedMode::Hold => "hold"@,
        SavedMode::Native => "native"@,
    }
}

/// The text of a restore file.
pub open spec fn saved_text(state: SavedState) -> Seq<char> {
    "version=1\noriginal="@ + hex(state.original as nat, 2) + "\nmode="@ + mode_word(state.mode)
        + "\n"@
}

/// Reads the lines from the `i`-th on. A later line of a kind replaces an earlier one; lines of
/// no kind are passed over; the first line with a bad value ends the reading.
pub open spec fn scan_lines(
    list: Seq<Seq<char>>,
    i: int,
    original: Option<u8>,
    mode: Option<SavedMode>,
) -> Result<SavedState, EcError>
    decreases list.len() - i,
{
    if i < 0 || i >= list.len() {
        match (original, mode) {
            (None, _) => Err(EcError::StateNoOriginal),
            (Some(_), None) => Err(EcError::StateNoMode),
            (Some(original), Some(mode)) => Ok(SavedState { original, mode }),
        }
    } else if after(list[i], "original="@) is Some {
        match hex_byte(after(list[i], "original="@)->0) {
            Some(byte) => scan_lines(list, i + 1, Some(byte), mode),
            None => Err(EcError::StateBadOriginal),
        }
    } else if after(list[i], "mode="@) is Some {
        if after(list[i], "mode="@)->0 == "hold"@ {
            scan_lines(list, i + 1, original, Some(SavedMode::Hold))
        } else if after(list[i], "mode="@)->0 == "native"@ {
            scan_lines(list, i + 1, original, Some(SavedMode::Native))
        } else {
            Err(EcError::StateUnknownMode)
        }
    } else {
        scan_lines(list, i + 1, original, mode)
    }
}

/// What a restore file says. A file that is nothing but a byte in base sixteen, as the first
/// version wrote it, is a hold.
pub open spec fn parsed_state(text: Seq<char>) -> Result<SavedState, EcError> {
    match hex_byte(trim(text)) {
        Some(original) => Ok(SavedState { original, mode: SavedMode::Hold }),
        None => scan_lines(lines(trim(text)), 0, None, None),
    }
}

/// The text that saves the policy byte `value` for `mode`.
pub fn save_original_policy(value: u8, mode: SavedMode) -> (text: String)
    ensures
        text@ == saved_text(SavedState { original: value, mode }),
{
    let mut text = around("version=1\noriginal=", hex_text(value as u64, 2), "\nmode=");
    let word: &str = match mode {
        SavedMode::Hold => "hold",
        SavedMode::Native => "native",
    };
    text.append(word);
    text.append("\n");
    text
}

/// Reads the text of a restore file.
pub fn parse_saved_state(text: &str) -> (state: Result<SavedState, EcError>)
    ensures
        state == parsed_state(text@),
{
    let chars = characters(text);
    let inner = trimmed(&chars);
    if let Some(original) = parse_hex_byte(&inner) {
        return Ok(SavedState { original, mode: SavedMode::Hold });
    }
    let list = split_lines(&inner);
    let ghost words = lines(trim(text@));
    proof {
        assert(texts(list@) == words);
    }
    let mut original: Option<u8> = None;
    let mut mode: Option<SavedMode> = None;
    let mut i: usize = 0;
    while i < list.len()
        invariant
            i <= list@.len(),
            texts(list@) == words,
            parsed_state(text@) == scan_lines(words, 0, None, None),
            scan_lines(words, i as int, original, mode) == scan_lines(words, 0, None, None),
        decreases list.len() - i,
    {
        proof {
            assert(texts(list@)[i as int] == list@[i as int]@);
        }
        if let Some(value) = strip(&list[i], "original=") {
            match parse_hex_byte(&value) {
                Some(byte) => {
                    original = Some(byte);
                },
                None => {
                    return Err(EcError::StateBadOriginal);
                },
            }
        } else if let Some(value) = strip(&list[i], "mode=") {
            if spells(&value, "hold") {
                mode = Some(SavedMode::Hold);
            } else if spells(&value, "native") {
                mode = Some(SavedMode::Native);
            } else {
                return Err(EcError::StateUnknownMode);
            }
        }
        i = i + 1;
    }
    match (original, mode) {
        (None, _) => Err(EcError::StateNoOriginal),
        (Some(_), None) => Err(EcError::StateNoMode),
        (Some(original), Some(mode)) => Ok(SavedState { original, mode }),
    }
}

/// What is saved is what is read back.
pub proof fn law_saved_state_round_trip(state: SavedState)
    ensures
        parsed_state(saved_text(state)) == Ok::<SavedState, EcError>(state),
{
    reveal_strlit("version=1\noriginal=");
    reveal_strlit("\nmode=");
    reveal_strlit("\n");
    reveal_strlit("hold");
    reveal_strlit("native");
    reveal_strlit("original=");
    reveal_strlit("mode=");
    reveal_with_fuel(hex, 3);
    let digits = hex(state.original as nat, 2);
    let word = mode_word(state.mode);
    let text = saved_text(state);
    let inner = "version=1\noriginal="@ + digits + "\nmode="@ + word;
    assert(text =~= inner.push('\n'));
    assert(!is_space(text[0]));
    assert(text.last() == '\n');
    assert(text.drop_last() =~= inner);
    assert(inner.last() == word.last());
    assert(!is_space(inner.last()));
    assert(trim(text) == inner) by {
        reveal_with_fuel(trim_end, 3);
    }

    assert(hex_byte(inner) is None) by {
        assert(inner[0] == 'v');
        reveal_with_fuel(hex_number, 2);
        assert(inner.take(1).last() == 'v');
        lemma_prefix_of_number(inner, 1);
    }

    let line1 = seq!['v', 'e', 'r', 's', 'i', 'o', 'n', '=', '1'];
    let line2 = "original="@ + digits;
    let line3 = "mode="@ + word;
    let rest2 = line3;
    let rest1 = line2 + seq!['\n'] + rest2;
    assert(inner =~= line1 + seq!['\n'] + rest1);
    lemma_first_line(line1, rest1);
    lemma_first_line(line2, rest2);
    lemma_only_line(line3);
    assert(chomp(line1) == line1);
    assert(chomp(line2) == line2);
    let list = lines(inner);
    assert(list =~= seq![line1, line2, line3]);

    lemma_hex_byte_round_trip(state.original);
    assert(after(line1, "original="@) is None) by {
        assert("original="@[0] != line1[0]);
    }
    assert(after(line1, "mode="@) is None) by {
        assert("mode="@[0] != line1[0]);
    }
    assert(after(line2, "original="@) == Some(digits)) by {
        assert(line2.subrange(0, 9) =~= "original="@);
        assert(line2.skip(9) =~= digits);
    }
    assert(after(line3, "original="@) is None) by {
        assert("original="@[0] != line3[0]);
    }
    assert(after(line3, "mode="@) == Some(word)) by {
        assert(line3.subrange(0, 5) =~= "mode="@);
        assert(line3.skip(5) =~= word);
    }
    assert("hold"@[0] != "native"@[0]);
    reveal_with_fuel(scan_lines, 4);
}

/// Reading the restore file.
pub open spec fn load_run(d: EcTalk) -> EcRun<SavedState> {
    match asks::<EcRequest, EcReply, EcError>(d, EcRequest::LoadState) {
        (d, Err(stop)) => (d, Err(stop)),
        (d, Ok(EcReply::Text(text))) => (
            d,
            match parsed_state(text@) {
                Ok(state) => Ok(state),
                Err(error) => Err(Stop::Failed(error)),
            },
        ),
        (d, Ok(EcReply::Fault(_))) => (d, Err(Stop::Failed(EcError::StateNotFound))),
        (d, Ok(_)) => (d, Err(Stop::Failed(EcError::UnexpectedReply))),
    }
}

/// Loads the restore file.
pub fn load_saved_state(io: &mut EcIo) -> (result: Result<SavedState, Stop<EcError>>)
    ensures
        (final(io)@, result) == load_run(old(io)@),
{
    match io.ask(EcRequest::LoadState)? {
        EcReply::Text(text) => match parse_saved_state(text.as_str()) {
            Ok(state) => Ok(state),
            Err(error) => Err(Stop::Failed(error)),
        },
        EcReply::Fault(_) => Err(Stop::Failed(EcError::StateNotFound)),
        _ => Err(Stop::Failed(EcError::UnexpectedReply)),
    }
}

// ---- Looking at the charger ----

/// Whether the firmware's native mode is on.
pub open spec fn native(policy: u8) -> bool {
    policy & NATIVE_MODE_MASK == NATIVE_MODE_MASK
}

/// What is read before a mode is changed.
#[derive(Clone, Copy, PartialEq, Eq, Debug, Structural)]
pub struct Survey {
    pub rsoc: u8,
    pub policy: u8,
    pub target_zero: bool,
    pub readback_zero: bool,
}

/// Whether the two bytes at `addr` are zero. The second is looked at only if the first is.
pub open spec fn word_zero_run(d: EcTalk, port: u16, addr: u16) -> EcRun<bool> {
    match byte_run(d, port, addr) {
        (d, Err(stop)) => (d, Err(stop)),
        (d, Ok(first)) => if first != 0 {
            (d, Ok(false))
        } else {
            match byte_run(d, port, (addr + 1) as u16) {
                (d, Err(stop)) => (d, Err(stop)),
                (d, Ok(second)) => (d, Ok(second == 0)),
            }
        },
    }
}

/// The charge-current target and its readback: which of them are zero.
pub open spec fn currents_run(d: EcTalk, port: u16) -> EcRun<(bool, bool)> {
    match word_zero_run(d, port, CURRENT_TARGET_ADDR) {
        (d, Err(stop)) => (d, Err(stop)),
        (d, Ok(target_zero)) => match word_zero_run(d, port, CURRENT_READBACK_ADDR) {
            (d, Err(stop)) => (d, Err(stop)),
            (d, Ok(readback_zero)) => (d, Ok((target_zero, readback_zero))),
        },
    }
}

/// The charge, the policy and the currents, in this order.
pub open spec fn survey_run(d: EcTalk, port: u16) -> EcRun<Survey> {
    match byte_run(d, port, RSOC_ADDR) {
        (d, Err(stop)) => (d, Err(stop)),
        (d, Ok(rsoc)) => match byte_run(d, port, POLICY_ADDR) {
            (d, Err(stop)) => (d, Err(stop)),
            (d, Ok(policy)) => match currents_run(d, port) {
                (d, Err(stop)) => (d, Err(stop)),
                (d, Ok((target_zero, readback_zero))) => (
                    d,
                    Ok(Survey { rsoc, policy, target_zero, readback_zero }),
                ),
            },
        },
    }
}

/// The policy and the currents, in this order.
pub open spec fn look_run(d: EcTalk, port: u16) -> EcRun<(u8, bool, bool)> {
    match byte_run(d, port, POLICY_ADDR) {
        (d, Err(stop)) => (d, Err(stop)),
        (d, Ok(policy)) => match currents_run(d, port) {
            (d, Err(stop)) => (d, Err(stop)),
            (d, Ok((target_zero, readback_zero))) => (d, Ok((policy, target_zero, readback_zero))),
        },
    }
}

fn read_reg(b: &EcBatch, io: &mut EcIo, addr: u16) -> (result: Result<u8, Stop<EcError>>)
    ensures
        (final(io)@, result) == byte_run(old(io)@, b.rt.port, addr),
{
    b.read(io, Addr::Reg(addr))
}

/// Whether the two bytes at `addr` are zero.
pub fn read_word_is_zero(b: &EcBatch, io: &mut EcIo, addr: u16) -> (result: Result<
    bool,
    Stop<EcError>,
>)
    requires
        addr < 0xFFFF,
    ensures
        (final(io)@, result) == word_zero_run(old(io)@, b.rt.port, addr),
{
    Ok(read_reg(b, io, addr)? == 0 && read_reg(b, io, addr + 1)? == 0)
}

fn read_currents(b: &EcBatch, io: &mut EcIo) -> (result: Result<(bool, bool), Stop<EcError>>)
    ensures
        (final(io)@, result) == currents_run(old(io)@, b.rt.port),
{
    let target_zero = read_word_is_zero(b, io, CURRENT_TARGET_ADDR)?;
    let readback_zero = read_word_is_zero(b, io, CURRENT_READBACK_ADDR)?;
    Ok((target_zero, readback_zero))
}

fn survey(ec: &EcDevice, io: &mut EcIo) -> (result: Result<Survey, Stop<EcError>>)
    ensures
        (final(io)@, result) == batch_run(old(io)@, |d: EcTalk| survey_run(d, ec.rt.port)),
{
    ec.with_batch(
        io,
        |b: &EcBatch, io: &mut EcIo| -> (r: Result<Survey, Stop<EcError>>)
            ensures
                (final(io)@, r) == survey_run(old(io)@, b.rt.port)
            {
                let rsoc = read_reg(b, io, RSOC_ADDR)?;
                let policy = read_reg(b, io, POLICY_ADDR)?;
                let (target_zero, readback_zero) = read_currents(b, io)?;
                Ok(Survey { rsoc, policy, target_zero, readback_zero })
            },
    )
}

fn look(ec: &EcDevice, io: &mut EcIo) -> (result: Result<(u8, bool, bool), Stop<EcError>>)
    ensures
        (final(io)@, result) == batch_run(old(io)@, |d: EcTalk| look_run(d, ec.rt.port)),
{
    ec.with_batch(
        io,
        |b: &EcBatch, io: &mut EcIo| -> (r: Result<(u8, bool, bool), Stop<EcError>>)
            ensures
                (final(io)@, r) == look_run(old(io)@, b.rt.port)
            {
                let policy = read_reg(b, io, POLICY_ADDR)?;
                let (target_zero, readback_zero) = read_currents(b, io)?;
                Ok((policy, target_zero, readback_zero))
            },
    )
}

// ---- Waiting for the effect ----

/// Looks at the charger until a hold shows or the deadline is reached. A hold shows when the
/// policy is the expected one or any native one, and both currents are zero.
pub open spec fn hold_shows_run(d: EcTalk, port: u16, expected: u8) -> EcRun<()>
    decreases d.left(),
{
    match batch_run(d, |d: EcTalk| look_run(d, port)) {
        (d1, Err(stop)) => (d1, Err(stop)),
        (d1, Ok((policy, target_zero, readback_zero))) => if (policy == expected || native(policy))
            && target_zero && readback_zero {
            (d1, Ok(()))
        } else {
            match flag_run(d1, EcRequest::TimerExpired) {
                (d2, Err(stop)) => (d2, Err(stop)),
                (d2, Ok(true)) => (d2, Err(Stop::Failed(EcError::HoldNotConfirmed))),
                (d2, Ok(false)) => match done_run(d2, EcRequest::Sleep(POLL_MS)) {
                    (d3, Err(stop)) => (d3, Err(stop)),
                    (d3, Ok(())) => {
                        proof {
                            lemma_look_advances(d, port);
                        }
                        hold_shows_run(d3, port, expected)
                    },
                },
            }
        },
    }
}

/// Looks at the charger until native protection shows or the deadline is reached. It shows when
/// the policy is native and neither current is zero.
pub open spec fn native_shows_run(d: EcTalk, port: u16) -> EcRun<()>
    decreases d.left(),
{
    match batch_run(d, |d: EcTalk| look_run(d, port)) {
        (d1, Err(stop)) => (d1, Err(stop)),
        (d1, Ok((policy, target_zero, readback_zero))) => if native(policy) && !target_zero
            && !readback_zero {
            (d1, Ok(()))
        } else {
            match flag_run(d1, EcRequest::TimerExpired) {
                (d2, Err(stop)) => (d2, Err(stop)),
                (d2, Ok(true)) => (d2, Err(Stop::Failed(EcError::NativeNotConfirmed))),
                (d2, Ok(false)) => match done_run(d2, EcRequest::Sleep(POLL_MS)) {
                    (d3, Err(stop)) => (d3, Err(stop)),
                    (d3, Ok(())) => {
                        proof {
                            lemma_look_advances(d, port);
                        }
                        native_shows_run(d3, port)
                    },
                },
            }
        },
    }
}

/// A look at the charger only reads on in the record of replies.
pub proof fn lemma_look_advances(d: EcTalk, port: u16)
    ensures
        ({
            let (d1, r) = batch_run(d, |d: EcTalk| look_run(d, port));
            &&& d1.replies == d.replies
            &&& d1.used >= d.used
        }),
{
}

/// The wait for a hold, deadline first.
pub open spec fn await_hold_run(d: EcTalk, port: u16, expected: u8) -> EcRun<()> {
    match done_run(d, EcRequest::StartTimer(CONFIRMATION_MS)) {
        (d, Err(stop)) => (d, Err(stop)),
        (d, Ok(())) => hold_shows_run(d, port, expected),
    }
}

/// The wait for native protection, deadline first.
pub open spec fn await_native_run(d: EcTalk, port: u16) -> EcRun<()> {
    match done_run(d, EcRequest::StartTimer(CONFIRMATION_MS)) {
        (d, Err(stop)) => (d, Err(stop)),
        (d, Ok(())) => native_shows_run(d, port),
    }
}

/// Waits until a hold shows, for at most the confirmation time.
pub fn wait_for_hold_confirmation(ec: &EcDevice, io: &mut EcIo, expected_policy: u8) -> (result:
    Result<(), Stop<EcError>>)
    ensures
        (final(io)@, result) == await_hold_run(old(io)@, ec.rt.port, expected_policy),
{
    done(io, EcRequest::StartTimer(CONFIRMATION_MS))?;
    let ghost start = io@;
    loop
        invariant
            hold_shows_run(io@, ec.rt.port, expected_policy) == hold_shows_run(
                start,
                ec.rt.port,
                expected_policy,
            ),
            await_hold_run(old(io)@, ec.rt.port, expected_policy) == hold_shows_run(
                start,
                ec.rt.port,
                expected_policy,
            ),
        decreases io@.left(),
    {
        proof {
            lemma_look_advances(io@, ec.rt.port);
        }
        let (policy, target_zero, readback_zero) = look(ec, io)?;
        if (policy == expected_policy || policy & NATIVE_MODE_MASK == NATIVE_MODE_MASK)
            && target_zero && readback_zero {
            return Ok(());
        }
        if flag(io, EcRequest::TimerExpired)? {
            return Err(Stop::Failed(EcError::HoldNotConfirmed));
        }
        done(io, EcRequest::Sleep(POLL_MS))?;
    }
}

/// Waits until native protection shows, for at most the confirmation time.
pub fn wait_for_native_arm_confirmation(ec: &EcDevice, io: &mut EcIo) -> (result: Result<
    (),
    Stop<EcError>,
>)
    ensures
        (final(io)@, result) == await_native_run(old(io)@, ec.rt.port),
{
    done(io, EcRequest::StartTimer(CONFIRMATION_MS))?;
    let ghost start = io@;
    loop
        invariant
            native_shows_run(io@, ec.rt.port) == native_shows_run(start, ec.rt.port),
            await_native_run(old(io)@, ec.rt.port) == native_shows_run(start, ec.rt.port),
        decreases io@.left(),
    {
        proof {
            lemma_look_advances(io@, ec.rt.port);
        }
        let (policy, target_zero, readback_zero) = look(ec, io)?;
        if policy & NATIVE_MODE_MASK == NATIVE_MODE_MASK && !target_zero && !readback_zero {
            return Ok(());
        }
        if flag(io, EcRequest::TimerExpired)? {
            return Err(Stop::Failed(EcError::NativeNotConfirmed));
        }
        done(io, EcRequest::Sleep(POLL_MS))?;
    }
}

// ---- The status ----

/// What the charger is doing, from the policy and, in native mode, from the restore file.
pub open spec fn status_run(d: EcTalk, port: u16) -> EcRun<NativeChargeHoldStatus> {
    match byte_run(d, port, RSOC_ADDR) {
        (d, Err(stop)) => (d, Err(stop)),
        (d, Ok(rsoc)) => match byte_run(d, port, POLICY_ADDR) {
            (d, Err(stop)) => (d, Err(stop)),
            (d, Ok(policy)) => if native(policy) {
                match load_run(d) {
                    (d, Err(Stop::Suspended)) => (d, Err(Stop::Suspended)),
                    (d, Ok(SavedState { original: _, mode: SavedMode::Native })) => (
                        d,
                        Ok(NativeChargeHoldStatus::NativeProtection { rsoc }),
                    ),
                    (d, _) => (d, Ok(NativeChargeHoldStatus::Holding { rsoc })),
                }
            } else {
                (d, Ok(NativeChargeHoldStatus::Normal { rsoc }))
            },
        },
    }
}

/// What the charger is doing, on a board that can tell.
pub open spec fn told_run(d: EcTalk, ec: EcDevice) -> EcRun<NativeChargeHoldStatus> {
    if ec.profile.offsets.n161a_native_charge_hold {
        batch_run(d, |d: EcTalk| status_run(d, ec.rt.port))
    } else {
        (d, Ok(NativeChargeHoldStatus::Unsupported))
    }
}

/// What a change of the mode comes to: `run` on an N161A, and a refusal on any other board.
pub open spec fn on_n161a(d: EcTalk, ec: EcDevice, run: EcRun<()>) -> EcRun<()> {
    if ec.profile.offsets.n161a_native_charge_hold {
        run
    } else {
        (d, Err(Stop::Failed(EcError::NotN161a)))
    }
}

/// Tells what the charger is doing.
pub fn read_native_charge_hold(ec: &EcDevice, io: &mut EcIo) -> (result: Result<
    NativeChargeHoldStatus,
    Stop<EcError>,
>)
    ensures
        (final(io)@, result) == told_run(old(io)@, *ec),
{
    if !ec.profile.offsets.n161a_native_charge_hold {
        return Ok(NativeChargeHoldStatus::Unsupported);
    }
    ec.with_batch(
        io,
        |b: &EcBatch, io: &mut EcIo| -> (r: Result<NativeChargeHoldStatus, Stop<EcError>>)
            ensures
                (final(io)@, r) == status_run(old(io)@, b.rt.port)
            {
                let rsoc = read_reg(b, io, RSOC_ADDR)?;
                let policy = read_reg(b, io, POLICY_ADDR)?;
                if policy & NATIVE_MODE_MASK == NATIVE_MODE_MASK {
                    match load_saved_state(io) {
                        Err(Stop::Suspended) => Err(Stop::Suspended),
                        Ok(SavedState { original: _, mode: SavedMode::Native }) => Ok(
                            NativeChargeHoldStatus::NativeProtection { rsoc },
                        ),
                        _ => Ok(NativeChargeHoldStatus::Holding { rsoc }),
                    }
                } else {
                    Ok(NativeChargeHoldStatus::Normal { rsoc })
                }
            },
    )
}

// ---- Holding the charge ----

/// The policy byte of a hold. A hold is possible above 61 and below 85 percent; up to 75 percent
/// the latch is set beforehand.
pub open spec fn hold_policy(original: u8, rsoc: u8) -> Result<u8, EcError> {
    if rsoc <= 61 {
        Err(EcError::HoldTooLow(rsoc))
    } else if rsoc >= 85 {
        Err(EcError::HoldTooHigh(rsoc))
    } else if rsoc <= 75 {
        Ok(original | PRELATCHED_MODE_MASK)
    } else {
        Ok(original | NATIVE_MODE_MASK)
    }
}

/// The policy byte with which a hold at `rsoc` percent replaces `original`.
pub fn hold_target(original: u8, rsoc: u8) -> (target: Result<u8, EcError>)
    ensures
        target == hold_policy(original, rsoc),
{
    if rsoc <= 61 {
        return Err(EcError::HoldTooLow(rsoc));
    }
    if rsoc >= 85 {
        return Err(EcError::HoldTooHigh(rsoc));
    }
    let mask: u8 = if rsoc <= 75 {
        PRELATCHED_MODE_MASK
    } else {
        NATIVE_MODE_MASK
    };
    Ok(original | mask)
}

/// What a request for a hold comes to before the restore file has been looked at.
#[derive(Clone, Copy, PartialEq, Eq, Debug, Structural)]
pub enum HoldStart {
    Refuse(EcError),
    /// Native mode is already on: the restore file says whose it is.
    Consult,
    /// Save the policy, then write this one.
    Arm(u8),
}

/// The first decision on a hold. The range is checked before anything else.
pub open spec fn hold_start_of(seen: Survey) -> HoldStart {
    match hold_policy(seen.policy, seen.rsoc) {
        Err(error) => HoldStart::Refuse(error),
        Ok(target) => if native(seen.policy) {
            HoldStart::Consult
        } else if seen.policy & 0x02 != 0 {
            HoldStart::Refuse(EcError::UnknownPolicy(seen.policy))
        } else if seen.target_zero || seen.readback_zero {
            HoldStart::Refuse(EcError::HoldNeedsCharging)
        } else {
            HoldStart::Arm(target)
        },
    }
}

/// The first decision on a hold.
pub fn hold_start(seen: &Survey) -> (start: HoldStart)
    ensures
        start == hold_start_of(*seen),
{
    match hold_target(seen.policy, seen.rsoc) {
        Err(error) => HoldStart::Refuse(error),
        Ok(target) => {
            if seen.policy & NATIVE_MODE_MASK == NATIVE_MODE_MASK {
                HoldStart::Consult
            } else if seen.policy & 0x02 != 0 {
                HoldStart::Refuse(EcError::UnknownPolicy(seen.policy))
            } else if seen.target_zero || seen.readback_zero {
                HoldStart::Refuse(EcError::HoldNeedsCharging)
            } else {
                HoldStart::Arm(target)
            }
        },
    }
}

/// What a request for a hold comes to when native mode is already on.
#[derive(Clone, Copy, PartialEq, Eq, Debug, Structural)]
pub enum HoldAgain {
    Refuse(EcError),
    /// The hold is in effect; nothing is to be done.
    Active,
    /// The firmware let the latch go: write this policy.
    Rearm(u8),
}

/// The second decision on a hold, by what the restore file says (`None` where it says nothing
/// valid).
pub open spec fn hold_again_of(seen: Survey, saved: Option<SavedState>) -> HoldAgain {
    match saved {
        None => HoldAgain::Refuse(EcError::HoldNotOurs),
        Some(state) => if state.mode != SavedMode::Hold {
            HoldAgain::Refuse(EcError::NativeActive)
        } else if seen.target_zero && seen.readback_zero {
            HoldAgain::Active
        } else if seen.target_zero || seen.readback_zero {
            HoldAgain::Refuse(EcError::CurrentsDisagree)
        } else {
            HoldAgain::Rearm(seen.policy | PRELATCHED_MODE_MASK)
        },
    }
}

/// The second decision on a hold.
pub fn hold_again(seen: &Survey, saved: Option<SavedState>) -> (again: HoldAgain)
    ensures
        again == hold_again_of(*seen, saved),
{
    match saved {
        None => HoldAgain::Refuse(EcError::HoldNotOurs),
        Some(state) => {
            if state.mode != SavedMode::Hold {
                HoldAgain::Refuse(EcError::NativeActive)
            } else if seen.target_zero && seen.readback_zero {
                HoldAgain::Active
            } else if seen.target_zero || seen.readback_zero {
                HoldAgain::Refuse(EcError::CurrentsDisagree)
            } else {
                HoldAgain::Rearm(seen.policy | PRELATCHED_MODE_MASK)
            }
        },
    }
}

/// The restore file where it is valid.
pub open spec fn if_valid(run: EcRun<SavedState>) -> EcRun<Option<SavedState>> {
    match run.1 {
        Err(Stop::Suspended) => (run.0, Err(Stop::Suspended)),
        Err(Stop::Failed(_)) => (run.0, Ok(None)),
        Ok(state) => (run.0, Ok(Some(state))),
    }
}

fn load_if_valid(io: &mut EcIo) -> (result: Result<Option<SavedState>, Stop<EcError>>)
    ensures
        (final(io)@, result) == if_valid(load_run(old(io)@)),
{
    match load_saved_state(io) {
        Err(Stop::Suspended) => Err(Stop::Suspended),
        Err(Stop::Failed(_)) => Ok(None),
        Ok(state) => Ok(Some(state)),
    }
}

/// Writing a hold policy and waiting for its effect.
pub open spec fn write_hold_run(d: EcTalk, port: u16, policy: u8) -> EcRun<()> {
    match write_run(d, port, POLICY_ADDR, policy) {
        (d, Err(stop)) => (d, Err(stop)),
        (d, Ok(())) => await_hold_run(d, port, policy),
    }
}

/// A hold, from what was seen of the charger.
pub open spec fn hold_run(d: EcTalk, port: u16, seen: Survey) -> EcRun<()> {
    match hold_start_of(seen) {
        HoldStart::Refuse(error) => (d, Err(Stop::Failed(error))),
        HoldStart::Consult => match if_valid(load_run(d)) {
            (d, Err(stop)) => (d, Err(stop)),
            (d, Ok(saved)) => match hold_again_of(seen, saved) {
                HoldAgain::Refuse(error) => (d, Err(Stop::Failed(error))),
                HoldAgain::Active => (d, Ok(())),
                HoldAgain::Rearm(policy) => write_hold_run(d, port, policy),
            },
        },
        HoldStart::Arm(target) => match done_run(
            d,
            EcRequest::SaveState { original: seen.policy, mode: SavedMode::Hold },
        ) {
            (d, Err(stop)) => (d, Err(stop)),
            (d, Ok(())) => write_hold_run(d, port, target),
        },
    }
}

/// A hold, from the look at the charger on.
pub open spec fn enable_hold_run(d: EcTalk, port: u16) -> EcRun<()> {
    match batch_run(d, |d: EcTalk| survey_run(d, port)) {
        (d, Err(stop)) => (d, Err(stop)),
        (d, Ok(seen)) => hold_run(d, port, seen),
    }
}

fn require_n161a(ec: &EcDevice) -> (result: Result<(), Stop<EcError>>)
    ensures
        result == if ec.profile.offsets.n161a_native_charge_hold {
            Ok::<(), Stop<EcError>>(())
        } else {
            Err(Stop::Failed(EcError::NotN161a))
        },
{
    if !ec.profile.offsets.n161a_native_charge_hold {
        return Err(Stop::Failed(EcError::NotN161a));
    }
    Ok(())
}

fn write_hold(ec: &EcDevice, io: &mut EcIo, policy: u8) -> (result: Result<(), Stop<EcError>>)
    ensures
        (final(io)@, result) == write_hold_run(old(io)@, ec.rt.port, policy),
{
    ec.write(io, Addr::Reg(POLICY_ADDR), policy)?;
    wait_for_hold_confirmation(ec, io, policy)
}

/// Holds the charge where it is.
pub fn enable_native_charge_hold(ec: &EcDevice, io: &mut EcIo) -> (result: Result<
    (),
    Stop<EcError>,
>)
    ensures
        (final(io)@, result) == on_n161a(
            old(io)@,
            *ec,
            enable_hold_run(old(io)@, ec.rt.port),
        ),
{
    require_n161a(ec)?;
    let seen = survey(ec, io)?;
    match hold_start(&seen) {
        HoldStart::Refuse(error) => Err(Stop::Failed(error)),
        HoldStart::Consult => {
            let saved = load_if_valid(io)?;
            match hold_again(&seen, saved) {
                HoldAgain::Refuse(error) => Err(Stop::Failed(error)),
                HoldAgain::Active => Ok(()),
                HoldAgain::Rearm(policy) => write_hold(ec, io, policy),
            }
        },
        HoldStart::Arm(target) => {
            // The byte to restore is on disk before the one write to the controller.
            done(io, EcRequest::SaveState { original: seen.policy, mode: SavedMode::Hold })?;
            write_hold(ec, io, target)
        },
    }
}

// ---- Native protection ----

/// What a request for native protection comes to before the restore file has been looked at.
#[derive(Clone, Copy, PartialEq, Eq, Debug, Structural)]
pub enum NativeStart {
    Refuse(EcError),
    Consult,
    Arm(u8),
}

/// The first decision on native protection.
pub open spec fn native_start_of(seen: Survey) -> NativeStart {
    if native(seen.policy) {
        NativeStart::Consult
    } else if seen.policy & 0x02 != 0 {
        NativeStart::Refuse(EcError::UnknownPolicy(seen.policy))
    } else if seen.rsoc > 60 {
        NativeStart::Refuse(EcError::NativeTooHigh(seen.rsoc))
    } else if seen.target_zero || seen.readback_zero {
        NativeStart::Refuse(EcError::NativeNeedsCharging)
    } else {
        NativeStart::Arm(seen.policy | NATIVE_MODE_MASK)
    }
}

/// The first decision on native protection.
pub fn native_start(seen: &Survey) -> (start: NativeStart)
    ensures
        start == native_start_of(*seen),
{
    if seen.policy & NATIVE_MODE_MASK == NATIVE_MODE_MASK {
        NativeStart::Consult
    } else if seen.policy & 0x02 != 0 {
        NativeStart::Refuse(EcError::UnknownPolicy(seen.policy))
    } else if seen.rsoc > 60 {
        NativeStart::Refuse(EcError::NativeTooHigh(seen.rsoc))
    } else if seen.target_zero || seen.readback_zero {
        NativeStart::Refuse(EcError::NativeNeedsCharging)
    } else {
        NativeStart::Arm(seen.policy | NATIVE_MODE_MASK)
    }
}

/// The second decision on native protection: whether it is already armed, by what the restore
/// file says.
pub open spec fn native_again_of(saved: Option<SavedState>) -> Result<(), EcError> {
    match saved {
        None => Err(EcError::NativeNotOurs),
        Some(state) => if state.mode == SavedMode::Native {
            Ok(())
        } else {
            Err(EcError::HoldActive)
        },
    }
}

/// The second decision on native protection.
pub fn native_again(saved: Option<SavedState>) -> (again: Result<(), EcError>)
    ensures
        again == native_again_of(saved),
{
    match saved {
        None => Err(EcError::NativeNotOurs),
        Some(state) => {
            if state.mode == SavedMode::Native {
                Ok(())
            } else {
                Err(EcError::HoldActive)
            }
        },
    }
}

/// Native protection, from what was seen of the charger.
pub open spec fn protection_run(d: EcTalk, port: u16, seen: Survey) -> EcRun<()> {
    match native_start_of(seen) {
        NativeStart::Refuse(error) => (d, Err(Stop::Failed(error))),
        NativeStart::Consult => match if_valid(load_run(d)) {
            (d, Err(stop)) => (d, Err(stop)),
            (d, Ok(saved)) => match native_again_of(saved) {
                Ok(()) => (d, Ok(())),
                Err(error) => (d, Err(Stop::Failed(error))),
            },
        },
        NativeStart::Arm(target) => match done_run(
            d,
            EcRequest::SaveState { original: seen.policy, mode: SavedMode::Native },
        ) {
            (d, Err(stop)) => (d, Err(stop)),
            (d, Ok(())) => match write_run(d, port, POLICY_ADDR, target) {
                (d, Err(stop)) => (d, Err(stop)),
                (d, Ok(())) => await_native_run(d, port),
            },
        },
    }
}

/// Native protection, from the look at the charger on.
pub open spec fn enable_protection_run(d: EcTalk, port: u16) -> EcRun<()> {
    match batch_run(d, |d: EcTalk| survey_run(d, port)) {
        (d, Err(stop)) => (d, Err(stop)),
        (d, Ok(seen)) => protection_run(d, port, seen),
    }
}

/// Arms the firmware's own charge protection.
pub fn enable_native_charge_protection(ec: &EcDevice, io: &mut EcIo) -> (result: Result<
    (),
    Stop<EcError>,
>)
    ensures
        (final(io)@, result) == on_n161a(
            old(io)@,
            *ec,
            enable_protection_run(old(io)@, ec.rt.port),
        ),
{
    require_n161a(ec)?;
    let seen = survey(ec, io)?;
    match native_start(&seen) {
        NativeStart::Refuse(error) => Err(Stop::Failed(error)),
        NativeStart::Consult => {
            let saved = load_if_valid(io)?;
            match native_again(saved) {
                Ok(()) => Ok(()),
                Err(error) => Err(Stop::Failed(error)),
            }
        },
        NativeStart::Arm(target) => {
            done(io, EcRequest::SaveState { original: seen.policy, mode: SavedMode::Native })?;
            ec.write(io, Addr::Reg(POLICY_ADDR), target)?;
            wait_for_native_arm_confirmation(ec, io)
        },
    }
}

// ---- Back to normal ----

/// Ending either mode. Outside native mode only a leftover restore file is deleted; in native
/// mode the saved policy is written back, then the file is deleted.
pub open spec fn resume_run(d: EcTalk, port: u16) -> EcRun<()> {
    match read_run(d, port, POLICY_ADDR) {
        (d, Err(stop)) => (d, Err(stop)),
        (d, Ok(policy)) => if !native(policy) {
            match flag_run(d, EcRequest::StateExists) {
                (d, Err(stop)) => (d, Err(stop)),
                (d, Ok(false)) => (d, Ok(())),
                (d, Ok(true)) => done_run(d, EcRequest::RemoveState),
            }
        } else {
            match load_run(d) {
                (d, Err(stop)) => (d, Err(stop)),
                (d, Ok(saved)) => match write_run(d, port, POLICY_ADDR, saved.original) {
                    (d, Err(stop)) => (d, Err(stop)),
                    (d, Ok(())) => done_run(d, EcRequest::RemoveState),
                },
            }
        },
    }
}

/// Ends either mode and lets the battery charge normally.
pub fn resume_native_charging(ec: &EcDevice, io: &mut EcIo) -> (result: Result<
    (),
    Stop<EcError>,
>)
    ensures
        (final(io)@, result) == on_n161a(old(io)@, *ec, resume_run(old(io)@, ec.rt.port)),
{
    require_n161a(ec)?;
    let current = ec.read(io, Addr::Reg(POLICY_ADDR))?;
    if current & NATIVE_MODE_MASK != NATIVE_MODE_MASK {
        if flag(io, EcRequest::StateExists)? {
            done(io, EcRequest::RemoveState)?;
        }
        return Ok(());
    }
    let saved = load_saved_state(io)?;
    ec.write(io, Addr::Reg(POLICY_ADDR), saved.original)?;
    done(io, EcRequest::RemoveState)?;
    Ok(())
}

// ---- What holds of the modes ----

/// The policies that are written switch native mode on and leave every bit outside the latched
/// mode as it was.
pub proof fn law_written_policies_are_native(original: u8, rsoc: u8)
    ensures
        hold_policy(original, rsoc) matches Ok(target) ==> {
            &&& native(target)
            &&& target & !PRELATCHED_MODE_MASK == original & !PRELATCHED_MODE_MASK
        },
        native(original | NATIVE_MODE_MASK),
        (original | NATIVE_MODE_MASK) & !NATIVE_MODE_MASK == original & !NATIVE_MODE_MASK,
        native(original | PRELATCHED_MODE_MASK),
{
    assert((original | 0x17u8) & 0x13u8 == 0x13u8) by (bit_vector);
    assert((original | 0x13u8) & 0x13u8 == 0x13u8) by (bit_vector);
    assert((original | 0x17u8) & !0x17u8 == original & !0x17u8) by (bit_vector);
    assert((original | 0x13u8) & !0x17u8 == original & !0x17u8) by (bit_vector);
    assert((original | 0x13u8) & !0x13u8 == original & !0x13u8) by (bit_vector);
}

proof fn lemma_currents_are_quiet(d: EcTalk, port: u16)
    ensures
        quiet(d, currents_run(d, port).0),
{
    assert forall|e: EcTalk, addr: u16| quiet(e, (#[trigger] word_zero_run(e, port, addr)).0) by {}
    let (d1, r) = word_zero_run(d, port, CURRENT_TARGET_ADDR);
    let d2 = word_zero_run(d1, port, CURRENT_READBACK_ADDR).0;
    assert(quiet(d1, d2));
}

proof fn lemma_look_is_quiet(d: EcTalk, port: u16)
    ensures
        quiet(d, look_run(d, port).0),
{
    let d1 = byte_run(d, port, POLICY_ADDR).0;
    lemma_currents_are_quiet(d1, port);
}

proof fn lemma_survey_is_quiet(d: EcTalk, port: u16)
    ensures
        quiet(d, survey_run(d, port).0),
{
    let d1 = byte_run(d, port, RSOC_ADDR).0;
    let d2 = byte_run(d1, port, POLICY_ADDR).0;
    lemma_currents_are_quiet(d2, port);
}

proof fn lemma_looks_are_quiet(d: EcTalk, port: u16)
    ensures
        quiet(d, batch_run(d, |d: EcTalk| look_run(d, port)).0),
{
    assert forall|e: EcTalk| quiet(e, (#[trigger] look_run(e, port)).0) by {
        lemma_look_is_quiet(e, port);
    }
    lemma_batch_is_quiet(d, |d: EcTalk| look_run(d, port));
}

proof fn lemma_hold_wait_is_quiet(d: EcTalk, port: u16, expected: u8)
    ensures
        quiet(d, hold_shows_run(d, port, expected).0),
    decreases d.left(),
{
    lemma_looks_are_quiet(d, port);
    lemma_look_advances(d, port);
    let (d1, r) = batch_run(d, |d: EcTalk| look_run(d, port));
    let (d2, late) = flag_run(d1, EcRequest::TimerExpired);
    let (d3, slept) = done_run(d2, EcRequest::Sleep(POLL_MS));
    if r is Ok && late == Ok::<bool, Stop<EcError>>(false) && slept is Ok {
        lemma_hold_wait_is_quiet(d3, port, expected);
    }
}

proof fn lemma_native_wait_is_quiet(d: EcTalk, port: u16)
    ensures
        quiet(d, native_shows_run(d, port).0),
    decreases d.left(),
{
    lemma_looks_are_quiet(d, port);
    lemma_look_advances(d, port);
    let (d1, r) = batch_run(d, |d: EcTalk| look_run(d, port));
    let (d2, late) = flag_run(d1, EcRequest::TimerExpired);
    let (d3, slept) = done_run(d2, EcRequest::Sleep(POLL_MS));
    if r is Ok && late == Ok::<bool, Stop<EcError>>(false) && slept is Ok {
        lemma_native_wait_is_quiet(d3, port);
    }
}

/// Telling the status never writes to the controller.
pub proof fn law_status_only_reads(d: EcTalk, port: u16)
    ensures
        quiet(d, batch_run(d, |d: EcTalk| status_run(d, port)).0),
{
    assert forall|e: EcTalk| quiet(e, (#[trigger] status_run(e, port)).0) by {
        let d1 = byte_run(e, port, RSOC_ADDR).0;
        let d2 = byte_run(d1, port, POLICY_ADDR).0;
        assert(quiet(d2, load_run(d2).0));
    }
    lemma_batch_is_quiet(d, |d: EcTalk| status_run(d, port));
}

/// What is asked from `from` on holds at most one write to the controller. It writes `policy` to
/// the policy byte, and somewhere before it stands the request `first`.
pub open spec fn one_write_after(
    asked: Seq<EcRequest>,
    port: u16,
    from: int,
    first: EcRequest,
    policy: u8,
) -> bool {
    forall|j: int|
        from <= j < asked.len() && #[trigger] asked[j] is WriteByte ==> {
            &&& asked[j] == EcRequest::WriteByte(port, POLICY_ADDR, policy)
            &&& exists|i: int| from <= i < j && asked[i] == first
            &&& forall|k: int|
                from <= k < asked.len() && k != j ==> !(#[trigger] asked[k] is WriteByte)
        }
}

proof fn lemma_write_hold_writes_once(d: EcTalk, port: u16, policy: u8)
    ensures
        continues(d, write_hold_run(d, port, policy).0),
        forall|j: int|
            d.asked.len() <= j < write_hold_run(d, port, policy).0.asked.len()
                && #[trigger] write_hold_run(d, port, policy).0.asked[j] is WriteByte ==> {
                &&& write_hold_run(d, port, policy).0.asked[j] == EcRequest::WriteByte(
                    port,
                    POLICY_ADDR,
                    policy,
                )
                &&& j == d.asked.len() + 1
            },
{
    let (d1, r) = write_run(d, port, POLICY_ADDR, policy);
    if r is Ok {
        let d2 = done_run(d1, EcRequest::StartTimer(CONFIRMATION_MS)).0;
        lemma_hold_wait_is_quiet(d2, port, policy);
        assert(d1.asked.len() == d.asked.len() + 3);
        assert(d1.asked[d.asked.len() as int + 1] == EcRequest::WriteByte(
            port,
            POLICY_ADDR,
            policy,
        ));
    }
}

/// A hold writes to the controller at most once, and only after its restore byte is secured: a
/// first hold saves the policy it read and then writes the hold policy for it; a repeated hold
/// writes only after the restore file said that the hold is its own. Every other outcome,
/// refusals above all, leaves the controller as it was.
pub proof fn law_hold_secures_the_restore_byte(d: EcTalk, port: u16, seen: Survey)
    ensures
        continues(d, hold_run(d, port, seen).0),
        match hold_start_of(seen) {
            HoldStart::Refuse(_) => hold_run(d, port, seen).0 == d,
            HoldStart::Arm(target) => one_write_after(
                hold_run(d, port, seen).0.asked,
                port,
                d.asked.len() as int,
                EcRequest::SaveState { original: seen.policy, mode: SavedMode::Hold },
                target,
            ),
            HoldStart::Consult => one_write_after(
                hold_run(d, port, seen).0.asked,
                port,
                d.asked.len() as int,
                EcRequest::LoadState,
                seen.policy | PRELATCHED_MODE_MASK,
            ) && (if_valid(load_run(d)).1 matches Ok(saved) && hold_again_of(seen, saved) is Rearm
                || quiet(d, hold_run(d, port, seen).0)),
        },
{
    let from = d.asked.len() as int;
    match hold_start_of(seen) {
        HoldStart::Refuse(_) => {},
        HoldStart::Arm(target) => {
            let request = EcRequest::SaveState { original: seen.policy, mode: SavedMode::Hold };
            let (d1, r) = done_run(d, request);
            assert(d1.asked[from] == request);
            if r is Ok {
                lemma_write_hold_writes_once(d1, port, target);
                let end = write_hold_run(d1, port, target).0;
                assert(end.asked[from] == request);
                assert(one_write_after(end.asked, port, from, request, target));
            }
        },
        HoldStart::Consult => {
            let (d1, r) = if_valid(load_run(d));
            assert(d1.asked[from] == EcRequest::LoadState);
            if let Ok(saved) = r {
                if let HoldAgain::Rearm(policy) = hold_again_of(seen, saved) {
                    lemma_write_hold_writes_once(d1, port, policy);
                    let end = write_hold_run(d1, port, policy).0;
                    assert(end.asked[from] == EcRequest::LoadState);
                }
            }
        },
    }
}

/// Native protection writes to the controller at most once, and only after the policy it read has
/// been saved. Every other outcome leaves the controller as it was.
pub proof fn law_protection_saves_before_it_writes(d: EcTalk, port: u16, seen: Survey)
    ensures
        continues(d, protection_run(d, port, seen).0),
        match native_start_of(seen) {
            NativeStart::Refuse(_) => protection_run(d, port, seen).0 == d,
            NativeStart::Arm(target) => one_write_after(
                protection_run(d, port, seen).0.asked,
                port,
                d.asked.len() as int,
                EcRequest::SaveState { original: seen.policy, mode: SavedMode::Native },
                target,
            ),
            NativeStart::Consult => quiet(d, protection_run(d, port, seen).0),
        },
{
    let from = d.asked.len() as int;
    if let NativeStart::Arm(target) = native_start_of(seen) {
        let request = EcRequest::SaveState { original: seen.policy, mode: SavedMode::Native };
        let (d1, r) = done_run(d, request);
        assert(d1.asked[from] == request);
        if r is Ok {
            let (d2, w) = write_run(d1, port, POLICY_ADDR, target);
            assert(d2.asked[from] == request);
            assert(one_write_after(d2.asked, port, from, request, target));
            if w is Ok {
                let d3 = done_run(d2, EcRequest::StartTimer(CONFIRMATION_MS)).0;
                lemma_native_wait_is_quiet(d3, port);
                assert(d2.asked.len() == from + 4);
                assert(d2.asked[from + 2] == EcRequest::WriteByte(port, POLICY_ADDR, target));
                let end = await_native_run(d2, port).0;
                assert(quiet(d2, end));
                assert(end.asked[from] == request);
            }
        }
    }
}

/// The look that precedes a decision leaves the controller as it was.
pub proof fn law_survey_only_reads(d: EcTalk, port: u16)
    ensures
        quiet(d, batch_run(d, |d: EcTalk| survey_run(d, port)).0),
{
    assert forall|e: EcTalk| quiet(e, (#[trigger] survey_run(e, port)).0) by {
        lemma_survey_is_quiet(e, port);
    }
    lemma_batch_is_quiet(d, |d: EcTalk| survey_run(d, port));
}

/// Outside native mode, ending a mode writes nothing to the controller.
pub proof fn law_resume_outside_native_mode_writes_nothing(d: EcTalk, port: u16)
    requires
        read_run(d, port, POLICY_ADDR).1 matches Ok(policy) && !native(policy),
    ensures
        quiet(d, resume_run(d, port).0),
{
}

/// Ending a mode puts back exactly the byte that was saved when the mode was entered, and deletes
/// the restore file after that.
pub proof fn law_resume_undoes_a_mode(
    d: EcTalk,
    port: u16,
    policy: u8,
    state: SavedState,
    text: String,
)
    requires
        0 <= d.used,
        d.used + 8 <= d.replies.len(),
        d.replies[d.used] == EcReply::Done,
        d.replies[d.used + 1] == EcReply::Byte(policy),
        d.replies[d.used + 2] == EcReply::Done,
        native(policy),
        d.replies[d.used + 3] == EcReply::Text(text),
        text@ == saved_text(state),
        forall|k: int| d.used + 4 <= k < d.used + 8 ==> d.replies[k] == EcReply::Done,
    ensures
        resume_run(d, port).1 == Ok::<(), Stop<EcError>>(()),
        resume_run(d, port).0.asked == d.asked + seq![
            EcRequest::Lock,
            EcRequest::ReadByte(port, POLICY_ADDR),
            EcRequest::Unlock,
            EcRequest::LoadState,
            EcRequest::Lock,
            EcRequest::WriteByte(port, POLICY_ADDR, state.original),
            EcRequest::Unlock,
            EcRequest::RemoveState,
        ],
{
    law_saved_state_round_trip(state);
}

// ---- What is decided and written, in bits and replies ----

/// A first hold arms native mode: between 61 and 85 percent, with current flowing and with bit 1 of
/// the policy free, the decision is to write a policy that has the bits of native mode set, that has
/// the latch set up to 75 percent and as it was above, and every other bit as it was.
pub proof fn law_a_first_hold_arms_native_mode(seen: Survey)
    requires
        61 < seen.rsoc < 85,
        seen.policy & 0x13 != 0x13,
        seen.policy & 0x02 == 0,
        !seen.target_zero,
        !seen.readback_zero,
    ensures
        hold_start_of(seen) is Arm,
        hold_start_of(seen)->Arm_0 & 0x13 == 0x13,
        hold_start_of(seen)->Arm_0 & !0x17 == seen.policy & !0x17,
        seen.rsoc <= 75 ==> hold_start_of(seen)->Arm_0 & 0x04 == 0x04,
        seen.rsoc > 75 ==> hold_start_of(seen)->Arm_0 & 0x04 == seen.policy & 0x04,
{
    let p = seen.policy;
    assert((p | 0x17u8) & 0x13u8 == 0x13u8 && (p | 0x17u8) & !0x17u8 == p & !0x17u8 && (p | 0x17u8)
        & 0x04u8 == 0x04u8) by (bit_vector);
    assert((p | 0x13u8) & 0x13u8 == 0x13u8 && (p | 0x13u8) & !0x17u8 == p & !0x17u8 && (p | 0x13u8)
        & 0x04u8 == p & 0x04u8) by (bit_vector);
}

/// When a hold is refused at once, and why: too little charge, too much charge, an unknown policy, or
/// no current. A policy that is native already is never refused here for what it is.
pub proof fn law_a_hold_is_refused_for_a_reason(seen: Survey)
    ensures
        seen.rsoc <= 61 <==> hold_start_of(seen) == HoldStart::Refuse(
            EcError::HoldTooLow(seen.rsoc),
        ),
        seen.rsoc >= 85 <==> hold_start_of(seen) == HoldStart::Refuse(
            EcError::HoldTooHigh(seen.rsoc),
        ),
        61 < seen.rsoc < 85 && seen.policy & 0x13 == 0x13 <==> hold_start_of(seen) is Consult,
        61 < seen.rsoc < 85 && seen.policy & 0x13 != 0x13 && seen.policy & 0x02 != 0
            <==> hold_start_of(seen) == HoldStart::Refuse(EcError::UnknownPolicy(seen.policy)),
        61 < seen.rsoc < 85 && seen.policy & 0x13 != 0x13 && seen.policy & 0x02 == 0 && (
        seen.target_zero || seen.readback_zero) <==> hold_start_of(seen) == HoldStart::Refuse(
            EcError::HoldNeedsCharging,
        ),
{
}

/// A hold on a policy that is native already: only one's own hold is taken over. It is in effect when
/// both currents are zero, and armed again, with the latch, when both flow; every other bit of the
/// policy stays as it is.
pub proof fn law_a_repeated_hold(seen: Survey, saved: Option<SavedState>)
    ensures
        saved is None <==> hold_again_of(seen, saved) == HoldAgain::Refuse(EcError::HoldNotOurs),
        saved matches Some(state) && state.mode is Native <==> hold_again_of(seen, saved)
            == HoldAgain::Refuse(EcError::NativeActive),
        saved matches Some(state) && state.mode is Hold ==> {
            &&& seen.target_zero && seen.readback_zero <==> hold_again_of(seen, saved) is Active
            &&& seen.target_zero != seen.readback_zero <==> hold_again_of(seen, saved)
                == HoldAgain::Refuse(EcError::CurrentsDisagree)
            &&& !seen.target_zero && !seen.readback_zero ==> {
                &&& hold_again_of(seen, saved) is Rearm
                &&& hold_again_of(seen, saved)->Rearm_0 & 0x17 == 0x17
                &&& hold_again_of(seen, saved)->Rearm_0 & !0x17 == seen.policy & !0x17
            }
        },
{
    let p = seen.policy;
    assert((p | 0x17u8) & 0x17u8 == 0x17u8 && (p | 0x17u8) & !0x17u8 == p & !0x17u8) by (bit_vector);
}

/// Native protection: it is armed up to 60 percent with current flowing and bit 1 of the policy free,
/// by setting the bits of native mode and no others. Everything else is refused, each for its reason,
/// or decided by the restore file.
pub proof fn law_protection_arms_native_mode(seen: Survey)
    ensures
        seen.policy & 0x13 == 0x13 <==> native_start_of(seen) is Consult,
        seen.policy & 0x13 != 0x13 && seen.policy & 0x02 != 0 <==> native_start_of(seen)
            == NativeStart::Refuse(EcError::UnknownPolicy(seen.policy)),
        seen.policy & 0x13 != 0x13 && seen.policy & 0x02 == 0 && seen.rsoc > 60
            <==> native_start_of(seen) == NativeStart::Refuse(EcError::NativeTooHigh(seen.rsoc)),
        seen.policy & 0x13 != 0x13 && seen.policy & 0x02 == 0 && seen.rsoc <= 60 && (
        seen.target_zero || seen.readback_zero) <==> native_start_of(seen) == NativeStart::Refuse(
            EcError::NativeNeedsCharging,
        ),
        seen.policy & 0x13 != 0x13 && seen.policy & 0x02 == 0 && seen.rsoc <= 60
            && !seen.target_zero && !seen.readback_zero ==> {
            &&& native_start_of(seen) is Arm
            &&& native_start_of(seen)->Arm_0 & 0x13 == 0x13
            &&& native_start_of(seen)->Arm_0 & !0x13 == seen.policy & !0x13
        },
{
    let p = seen.policy;
    assert((p | 0x13u8) & 0x13u8 == 0x13u8 && (p | 0x13u8) & !0x13u8 == p & !0x13u8) by (bit_vector);
}

/// Protection that is on already counts as armed only if the restore file says that it is one's own.
pub proof fn law_repeated_protection(saved: Option<SavedState>)
    ensures
        native_again_of(saved) is Ok <==> (saved matches Some(state) && state.mode is Native),
        saved is None <==> native_again_of(saved) == Err::<(), EcError>(EcError::NativeNotOurs),
        saved matches Some(state) && state.mode is Hold <==> native_again_of(saved) == Err::<
            (),
            EcError,
        >(EcError::HoldActive),
{
}

/// The two bytes of a word, as they are looked at: a first byte that is not zero settles it.
pub proof fn law_a_word_is_zero_if_both_bytes_are(d: EcTalk, port: u16, addr: u16, low: u8, high: u8)
    requires
        addr < 0xFFFF,
        0 <= d.used,
        d.used + 2 <= d.replies.len(),
        d.replies[d.used] == EcReply::Byte(low),
        low == 0 ==> d.replies[d.used + 1] == EcReply::Byte(high),
    ensures
        ({
            let (end, result) = word_zero_run(d, port, addr);
            &&& result == Ok::<bool, Stop<EcError>>(low == 0 && high == 0)
            &&& end.replies == d.replies
            &&& low != 0 ==> end.asked == d.asked.push(EcRequest::ReadByte(port, addr)) && end.used
                == d.used + 1
            &&& low == 0 ==> end.asked == d.asked.push(EcRequest::ReadByte(port, addr)).push(
                EcRequest::ReadByte(port, (addr + 1) as u16),
            ) && end.used == d.used + 2
        }),
{
}

/// What is seen of a charger that lets current flow: the charge and the policy as they are read, and
/// neither current zero.
pub proof fn law_a_survey_is_what_is_read(
    d: EcTalk,
    port: u16,
    rsoc: u8,
    policy: u8,
    target: u8,
    readback: u8,
)
    requires
        0 <= d.used,
        d.used + 6 <= d.replies.len(),
        d.replies[d.used] == EcReply::Done,
        d.replies[d.used + 1] == EcReply::Byte(rsoc),
        d.replies[d.used + 2] == EcReply::Byte(policy),
        d.replies[d.used + 3] == EcReply::Byte(target),
        d.replies[d.used + 4] == EcReply::Byte(readback),
        d.replies[d.used + 5] == EcReply::Done,
        target != 0,
        readback != 0,
    ensures
        ({
            let (end, result) = batch_run(d, |d: EcTalk| survey_run(d, port));
            &&& result == Ok::<Survey, Stop<EcError>>(
                Survey { rsoc, policy, target_zero: false, readback_zero: false },
            )
            &&& end.replies == d.replies
            &&& end.used == d.used + 6
            &&& end.asked == d.asked + seq![
                EcRequest::Lock,
                EcRequest::ReadByte(port, 0x050F),
                EcRequest::ReadByte(port, 0x0414),
                EcRequest::ReadByte(port, 0x05D4),
                EcRequest::ReadByte(port, 0x05E4),
                EcRequest::Unlock,
            ]
        }),
{
}

/// What is seen of a charger at rest: both words are read whole, and both currents are zero.
pub proof fn law_a_survey_sees_no_current(d: EcTalk, port: u16, rsoc: u8, policy: u8)
    requires
        0 <= d.used,
        d.used + 8 <= d.replies.len(),
        d.replies[d.used] == EcReply::Done,
        d.replies[d.used + 1] == EcReply::Byte(rsoc),
        d.replies[d.used + 2] == EcReply::Byte(policy),
        forall|k: int| d.used + 3 <= k < d.used + 7 ==> d.replies[k] == EcReply::Byte(0),
        d.replies[d.used + 7] == EcReply::Done,
    ensures
        ({
            let (end, result) = batch_run(d, |d: EcTalk| survey_run(d, port));
            &&& result == Ok::<Survey, Stop<EcError>>(
                Survey { rsoc, policy, target_zero: true, readback_zero: true },
            )
            &&& end.asked == d.asked + seq![
                EcRequest::Lock,
                EcRequest::ReadByte(port, 0x050F),
                EcRequest::ReadByte(port, 0x0414),
                EcRequest::ReadByte(port, 0x05D4),
                EcRequest::ReadByte(port, 0x05D5),
                EcRequest::ReadByte(port, 0x05E4),
                EcRequest::ReadByte(port, 0x05E5),
                EcRequest::Unlock,
            ]
        }),
{
}

/// The whole way of a first hold: what is read of the charger, the policy that was read is saved, and
/// a policy with native mode on is written in its place, with the latch as the charge asks for it.
/// The deadline for its effect is set next.
pub proof fn law_a_first_hold_in_full(
    d: EcTalk,
    port: u16,
    rsoc: u8,
    policy: u8,
    target: u8,
    readback: u8,
)
    requires
        61 < rsoc < 85,
        policy & 0x13 != 0x13,
        policy & 0x02 == 0,
        target != 0,
        readback != 0,
        0 <= d.used,
        d.used + 10 <= d.replies.len(),
        d.replies[d.used] == EcReply::Done,
        d.replies[d.used + 1] == EcReply::Byte(rsoc),
        d.replies[d.used + 2] == EcReply::Byte(policy),
        d.replies[d.used + 3] == EcReply::Byte(target),
        d.replies[d.used + 4] == EcReply::Byte(readback),
        forall|k: int| d.used + 5 <= k < d.used + 10 ==> d.replies[k] == EcReply::Done,
    ensures
        ({
            let asked = enable_hold_run(d, port).0.asked;
            let first = d.asked.len() as int;
            &&& asked.len() >= first + 11
            &&& asked[first + 6] == EcRequest::SaveState { original: policy, mode: SavedMode::Hold }
            &&& asked[first + 7] == EcRequest::Lock
            &&& asked[first + 8] matches EcRequest::WriteByte(to, addr, armed) && {
                &&& to == port
                &&& addr == 0x0414
                &&& armed & 0x13 == 0x13
                &&& armed & !0x17 == policy & !0x17
                &&& rsoc <= 75 ==> armed & 0x04 == 0x04
                &&& rsoc > 75 ==> armed & 0x04 == policy & 0x04
            }
            &&& asked[first + 9] == EcRequest::Unlock
            &&& asked[first + 10] == EcRequest::StartTimer(15_000)
            &&& forall|i: int|
                first <= i < asked.len() && i != first + 8 ==> !(#[trigger] asked[i] is WriteByte)
        }),
{
    let seen = Survey { rsoc, policy, target_zero: false, readback_zero: false };
    law_a_survey_is_what_is_read(d, port, rsoc, policy, target, readback);
    law_a_first_hold_arms_native_mode(seen);
    let armed = hold_start_of(seen)->Arm_0;
    let d1 = batch_run(d, |d: EcTalk| survey_run(d, port)).0;
    let d2 = done_run(d1, EcRequest::SaveState { original: policy, mode: SavedMode::Hold }).0;
    let d3 = write_run(d2, port, POLICY_ADDR, armed).0;
    let d4 = done_run(d3, EcRequest::StartTimer(CONFIRMATION_MS)).0;
    lemma_hold_wait_is_quiet(d4, port, armed);
    assert(d1.asked.len() == d.asked.len() + 6);
    assert(d2.asked.len() == d.asked.len() + 7);
    assert(d3.asked.len() == d.asked.len() + 10);
    assert(d4.asked[d.asked.len() as int + 10] == EcRequest::StartTimer(15_000));
    let end = enable_hold_run(d, port).0;
    if done_run(d3, EcRequest::StartTimer(CONFIRMATION_MS)).1 is Ok {
        assert(end == hold_shows_run(d4, port, armed).0);
        assert(quiet(d4, end));
    } else {
        assert(end == d4);
    }
    assert forall|i: int|
        d.asked.len() <= i < end.asked.len() && i != d.asked.len() + 8 implies !(
    #[trigger] end.asked[i] is WriteByte) by {
        if i < d4.asked.len() {
            assert(end.asked[i] == d4.asked[i]);
        }
    }
}

/// The whole way of native protection: the policy that was read is saved, and the same policy with
/// the bits of native mode is written in its place.
pub proof fn law_protection_in_full(
    d: EcTalk,
    port: u16,
    rsoc: u8,
    policy: u8,
    target: u8,
    readback: u8,
)
    requires
        rsoc <= 60,
        policy & 0x13 != 0x13,
        policy & 0x02 == 0,
        target != 0,
        readback != 0,
        0 <= d.used,
        d.used + 10 <= d.replies.len(),
        d.replies[d.used] == EcReply::Done,
        d.replies[d.used + 1] == EcReply::Byte(rsoc),
        d.replies[d.used + 2] == EcReply::Byte(policy),
        d.replies[d.used + 3] == EcReply::Byte(target),
        d.replies[d.used + 4] == EcReply::Byte(readback),
        forall|k: int| d.used + 5 <= k < d.used + 10 ==> d.replies[k] == EcReply::Done,
    ensures
        ({
            let asked = enable_protection_run(d, port).0.asked;
            let first = d.asked.len() as int;
            &&& asked.len() >= first + 11
            &&& asked[first + 6] == EcRequest::SaveState {
                original: policy,
                mode: SavedMode::Native,
            }
            &&& asked[first + 7] == EcRequest::Lock
            &&& asked[first + 8] matches EcRequest::WriteByte(to, addr, armed) && {
                &&& to == port
                &&& addr == 0x0414
                &&& armed & 0x13 == 0x13
                &&& armed & !0x13 == policy & !0x13
            }
            &&& asked[first + 9] == EcRequest::Unlock
            &&& asked[first + 10] == EcRequest::StartTimer(15_000)
            &&& forall|i: int|
                first <= i < asked.len() && i != first + 8 ==> !(#[trigger] asked[i] is WriteByte)
        }),
{
    let seen = Survey { rsoc, policy, target_zero: false, readback_zero: false };
    law_a_survey_is_what_is_read(d, port, rsoc, policy, target, readback);
    law_protection_arms_native_mode(seen);
    let armed = native_start_of(seen)->Arm_0;
    let d1 = batch_run(d, |d: EcTalk| survey_run(d, port)).0;
    let d2 = done_run(d1, EcRequest::SaveState { original: policy, mode: SavedMode::Native }).0;
    let d3 = write_run(d2, port, POLICY_ADDR, armed).0;
    let d4 = done_run(d3, EcRequest::StartTimer(CONFIRMATION_MS)).0;
    lemma_native_wait_is_quiet(d4, port);
    assert(d1.asked.len() == d.asked.len() + 6);
    assert(d2.asked.len() == d.asked.len() + 7);
    assert(d3.asked.len() == d.asked.len() + 10);
    assert(d4.asked[d.asked.len() as int + 10] == EcRequest::StartTimer(15_000));
    let end = enable_protection_run(d, port).0;
    if done_run(d3, EcRequest::StartTimer(CONFIRMATION_MS)).1 is Ok {
        assert(end == native_shows_run(d4, port).0);
        assert(quiet(d4, end));
    } else {
        assert(end == d4);
    }
    assert forall|i: int|
        d.asked.len() <= i < end.asked.len() && i != d.asked.len() + 8 implies !(
    #[trigger] end.asked[i] is WriteByte) by {
        if i < d4.asked.len() {
            assert(end.asked[i] == d4.asked[i]);
        }
    }
}

// ---- Waiting, in replies ----

/// The last requests of a look that found both currents zero.
pub open spec fn whole_look(port: u16) -> Seq<EcRequest> {
    seq![
        EcRequest::Lock,
        EcRequest::ReadByte(port, 0x0414),
        EcRequest::ReadByte(port, 0x05D4),
        EcRequest::ReadByte(port, 0x05D5),
        EcRequest::ReadByte(port, 0x05E4),
        EcRequest::ReadByte(port, 0x05E5),
        EcRequest::Unlock,
    ]
}

proof fn lemma_a_look_without_current(d: EcTalk, port: u16)
    requires
        0 <= d.used,
        batch_run(d, |d: EcTalk| look_run(d, port)).1 matches Ok((_, target_zero, readback_zero))
            && target_zero && readback_zero,
    ensures
        ({
            let (end, result) = batch_run(d, |d: EcTalk| look_run(d, port));
            &&& end.used == d.used + 7
            &&& end.used <= d.replies.len()
            &&& end.replies == d.replies
            &&& end.asked == d.asked + whole_look(port)
            &&& d.replies[d.used] == EcReply::Done
            &&& d.replies[d.used + 1] == EcReply::Byte(result->Ok_0.0)
            &&& d.replies[d.used + 2] == EcReply::Byte(0)
            &&& d.replies[d.used + 3] == EcReply::Byte(0)
            &&& d.replies[d.used + 4] == EcReply::Byte(0)
            &&& d.replies[d.used + 5] == EcReply::Byte(0)
            &&& d.replies[d.used + 6] == EcReply::Done
        }),
{
}

/// A hold is reported as confirmed only on the charger's own word: the last thing done is a look that
/// finds the written policy, or any native one, and all four bytes of the currents zero.
pub proof fn law_a_confirmed_hold_was_seen(d: EcTalk, port: u16, expected: u8)
    requires
        0 <= d.used,
        hold_shows_run(d, port, expected).1 is Ok,
    ensures
        ({
            let end = hold_shows_run(d, port, expected).0;
            &&& end.replies == d.replies
            &&& d.used + 7 <= end.used <= d.replies.len()
            &&& d.asked.len() + 7 <= end.asked.len()
            &&& end.asked.skip(end.asked.len() - 7) == whole_look(port)
            &&& d.replies[end.used - 6] matches EcReply::Byte(policy) && (policy == expected
                || policy & 0x13 == 0x13)
            &&& forall|k: int|
                end.used - 5 <= k < end.used - 1 ==> d.replies[k] == EcReply::Byte(0)
        }),
    decreases d.left(),
{
    lemma_look_advances(d, port);
    let (d1, r) = batch_run(d, |d: EcTalk| look_run(d, port));
    let (d2, late) = flag_run(d1, EcRequest::TimerExpired);
    let (d3, slept) = done_run(d2, EcRequest::Sleep(POLL_MS));
    let (policy, target_zero, readback_zero) = r->Ok_0;
    if (policy == expected || native(policy)) && target_zero && readback_zero {
        lemma_a_look_without_current(d, port);
        let end = hold_shows_run(d, port, expected).0;
        assert(end.asked.skip(end.asked.len() - 7) =~= whole_look(port));
    } else {
        lemma_looks_are_quiet(d, port);
        law_a_confirmed_hold_was_seen(d3, port, expected);
    }
}

/// A hold that shows at the first look is confirmed at once.
pub proof fn law_a_visible_hold_is_confirmed(d: EcTalk, port: u16, expected: u8, policy: u8)
    requires
        0 <= d.used,
        d.used + 7 <= d.replies.len(),
        policy == expected || policy & 0x13 == 0x13,
        d.replies[d.used] == EcReply::Done,
        d.replies[d.used + 1] == EcReply::Byte(policy),
        forall|k: int| d.used + 2 <= k < d.used + 6 ==> d.replies[k] == EcReply::Byte(0),
        d.replies[d.used + 6] == EcReply::Done,
    ensures
        hold_shows_run(d, port, expected).1 is Ok,
        hold_shows_run(d, port, expected).0.asked == d.asked + whole_look(port),
{
}

/// A hold counts as not confirmed only after the deadline, on the clock's word.
pub proof fn law_an_unconfirmed_hold_is_overdue(d: EcTalk, port: u16, expected: u8)
    requires
        0 <= d.used,
        hold_shows_run(d, port, expected).1 == Err::<(), Stop<EcError>>(
            Stop::Failed(EcError::HoldNotConfirmed),
        ),
    ensures
        ({
            let end = hold_shows_run(d, port, expected).0;
            &&& end.replies == d.replies
            &&& d.used < end.used <= d.replies.len()
            &&& d.replies[end.used - 1] == EcReply::Flag(true)
            &&& end.asked.len() > d.asked.len()
            &&& end.asked.last() == EcRequest::TimerExpired
        }),
    decreases d.left(),
{
    lemma_look_advances(d, port);
    lemma_looks_are_quiet(d, port);
    let (d1, r) = batch_run(d, |d: EcTalk| look_run(d, port));
    let (d2, late) = flag_run(d1, EcRequest::TimerExpired);
    let (d3, slept) = done_run(d2, EcRequest::Sleep(POLL_MS));
    if r is Ok && late == Ok::<bool, Stop<EcError>>(false) && slept is Ok {
        law_an_unconfirmed_hold_is_overdue(d3, port, expected);
    }
}

/// While a hold does not show, the clock is asked: past the deadline the wait has failed, and before
/// it the wait goes on after a quarter of a second. Current that flows is such a case whatever the
/// policy is.
pub proof fn law_the_wait_for_a_hold_goes_on(
    d: EcTalk,
    port: u16,
    expected: u8,
    policy: u8,
    target: u8,
    readback: u8,
)
    requires
        0 <= d.used,
        d.used + 7 <= d.replies.len(),
        target != 0,
        readback != 0,
        d.replies[d.used] == EcReply::Done,
        d.replies[d.used + 1] == EcReply::Byte(policy),
        d.replies[d.used + 2] == EcReply::Byte(target),
        d.replies[d.used + 3] == EcReply::Byte(readback),
        d.replies[d.used + 4] == EcReply::Done,
        d.replies[d.used + 5] is Flag,
        d.replies[d.used + 6] == EcReply::Done,
    ensures
        ({
            let looked = d.asked + seq![
                EcRequest::Lock,
                EcRequest::ReadByte(port, 0x0414),
                EcRequest::ReadByte(port, 0x05D4),
                EcRequest::ReadByte(port, 0x05E4),
                EcRequest::Unlock,
                EcRequest::TimerExpired,
            ];
            let run = hold_shows_run(d, port, expected);
            if d.replies[d.used + 5]->Flag_0 {
                &&& run.1 == Err::<(), Stop<EcError>>(Stop::Failed(EcError::HoldNotConfirmed))
                &&& run.0.asked == looked
            } else {
                run == hold_shows_run(
                    EcTalk {
                        asked: looked.push(EcRequest::Sleep(250)),
                        replies: d.replies,
                        used: d.used + 7,
                    },
                    port,
                    expected,
                )
            }
        }),
{
    let (d1, r) = batch_run(d, |d: EcTalk| look_run(d, port));
    assert(r == Ok::<(u8, bool, bool), Stop<EcError>>((policy, false, false)));
    let looked = d.asked + seq![
        EcRequest::Lock,
        EcRequest::ReadByte(port, 0x0414),
        EcRequest::ReadByte(port, 0x05D4),
        EcRequest::ReadByte(port, 0x05E4),
        EcRequest::Unlock,
        EcRequest::TimerExpired,
    ];
    assert(d1.asked.push(EcRequest::TimerExpired) =~= looked);
}

/// Native protection is reported as confirmed only when it was seen: a native policy, with current
/// flowing.
pub proof fn law_confirmed_protection_was_seen(d: EcTalk, port: u16)
    requires
        0 <= d.used,
        native_shows_run(d, port).1 is Ok,
    ensures
        exists|e: EcTalk|
            ({
                let (end, result) = batch_run(e, |d: EcTalk| look_run(d, port));
                &&& #[trigger] continues(d, e)
                &&& end == native_shows_run(d, port).0
                &&& result matches Ok((policy, target_zero, readback_zero)) && policy & 0x13 == 0x13
                    && !target_zero && !readback_zero
            }),
    decreases d.left(),
{
    lemma_look_advances(d, port);
    lemma_looks_are_quiet(d, port);
    let (d1, r) = batch_run(d, |d: EcTalk| look_run(d, port));
    let (d2, late) = flag_run(d1, EcRequest::TimerExpired);
    let (d3, slept) = done_run(d2, EcRequest::Sleep(POLL_MS));
    let (policy, target_zero, readback_zero) = r->Ok_0;
    if native(policy) && !target_zero && !readback_zero {
        assert(continues(d, d));
    } else {
        law_confirmed_protection_was_seen(d3, port);
        let e = choose|e: EcTalk|
            ({
                let (end, result) = batch_run(e, |d: EcTalk| look_run(d, port));
                &&& #[trigger] continues(d3, e)
                &&& end == native_shows_run(d3, port).0
                &&& result matches Ok((policy, target_zero, readback_zero)) && policy & 0x13 == 0x13
                    && !target_zero && !readback_zero
            });
        assert(continues(d, e));
    }
}

/// Protection that shows at the first look is confirmed at once. What does not show is looked at
/// again after a quarter of a second, until the clock says that the deadline has passed.
pub proof fn law_the_wait_for_protection(
    d: EcTalk,
    port: u16,
    policy: u8,
    target: u8,
    readback: u8,
)
    requires
        0 <= d.used,
        d.used + 7 <= d.replies.len(),
        target != 0,
        readback != 0,
        d.replies[d.used] == EcReply::Done,
        d.replies[d.used + 1] == EcReply::Byte(policy),
        d.replies[d.used + 2] == EcReply::Byte(target),
        d.replies[d.used + 3] == EcReply::Byte(readback),
        d.replies[d.used + 4] == EcReply::Done,
        d.replies[d.used + 5] is Flag,
        d.replies[d.used + 6] == EcReply::Done,
    ensures
        ({
            let looked = d.asked + seq![
                EcRequest::Lock,
                EcRequest::ReadByte(port, 0x0414),
                EcRequest::ReadByte(port, 0x05D4),
                EcRequest::ReadByte(port, 0x05E4),
                EcRequest::Unlock,
            ];
            let run = native_shows_run(d, port);
            if policy & 0x13 == 0x13 {
                run.1 is Ok && run.0.asked == looked
            } else if d.replies[d.used + 5]->Flag_0 {
                &&& run.1 == Err::<(), Stop<EcError>>(Stop::Failed(EcError::NativeNotConfirmed))
                &&& run.0.asked == looked.push(EcRequest::TimerExpired)
            } else {
                run == native_shows_run(
                    EcTalk {
                        asked: looked.push(EcRequest::TimerExpired).push(EcRequest::Sleep(250)),
                        replies: d.replies,
                        used: d.used + 7,
                    },
                    port,
                )
            }
        }),
{
    let (d1, r) = batch_run(d, |d: EcTalk| look_run(d, port));
    assert(r == Ok::<(u8, bool, bool), Stop<EcError>>((policy, false, false)));
    assert(d1.asked =~= d.asked + seq![
        EcRequest::Lock,
        EcRequest::ReadByte(port, 0x0414),
        EcRequest::ReadByte(port, 0x05D4),
        EcRequest::ReadByte(port, 0x05E4),
        EcRequest::Unlock,
    ]);
}

/// Protection is not confirmed while a current is zero, whatever the policy is: the clock is asked.
pub proof fn law_protection_needs_current(d: EcTalk, port: u16, policy: u8)
    requires
        0 <= d.used,
        d.used + 8 <= d.replies.len(),
        d.replies[d.used] == EcReply::Done,
        d.replies[d.used + 1] == EcReply::Byte(policy),
        forall|k: int| d.used + 2 <= k < d.used + 6 ==> d.replies[k] == EcReply::Byte(0),
        d.replies[d.used + 6] == EcReply::Done,
        d.replies[d.used + 7] == EcReply::Flag(true),
    ensures
        native_shows_run(d, port).1 == Err::<(), Stop<EcError>>(
            Stop::Failed(EcError::NativeNotConfirmed),
        ),
        native_shows_run(d, port).0.asked == (d.asked + whole_look(port)).push(
            EcRequest::TimerExpired,
        ),
{
}

// ---- Status, end and restore file, in replies ----

/// The status outside native mode is normal, with the charge that was read; the restore file does not
/// matter.
pub proof fn law_status_outside_native_mode(d: EcTalk, port: u16, rsoc: u8, policy: u8)
    requires
        0 <= d.used,
        d.used + 2 <= d.replies.len(),
        d.replies[d.used] == EcReply::Byte(rsoc),
        d.replies[d.used + 1] == EcReply::Byte(policy),
        policy & 0x13 != 0x13,
    ensures
        status_run(d, port).1 == Ok::<NativeChargeHoldStatus, Stop<EcError>>(
            NativeChargeHoldStatus::Normal { rsoc },
        ),
        status_run(d, port).0.asked == d.asked + seq![
            EcRequest::ReadByte(port, 0x050F),
            EcRequest::ReadByte(port, 0x0414),
        ],
{
}

/// The status in native mode: protection where the restore file says so, and a hold in every other
/// case, with the charge that was read.
pub proof fn law_status_in_native_mode(
    d: EcTalk,
    port: u16,
    rsoc: u8,
    policy: u8,
    state: SavedState,
)
    requires
        0 <= d.used,
        d.used + 3 <= d.replies.len(),
        d.replies[d.used] == EcReply::Byte(rsoc),
        d.replies[d.used + 1] == EcReply::Byte(policy),
        policy & 0x13 == 0x13,
    ensures
        ({
            let (end, result) = status_run(d, port);
            &&& end.asked == d.asked + seq![
                EcRequest::ReadByte(port, 0x050F),
                EcRequest::ReadByte(port, 0x0414),
                EcRequest::LoadState,
            ]
            &&& d.replies[d.used + 2] matches EcReply::Text(text) ==> (text@ == saved_text(state)
                ==> result == Ok::<NativeChargeHoldStatus, Stop<EcError>>(
                if state.mode is Native {
                    NativeChargeHoldStatus::NativeProtection { rsoc }
                } else {
                    NativeChargeHoldStatus::Holding { rsoc }
                },
            ))
            &&& !(d.replies[d.used + 2] is Text) ==> result == Ok::<
                NativeChargeHoldStatus,
                Stop<EcError>,
            >(NativeChargeHoldStatus::Holding { rsoc })
        }),
{
    law_saved_state_round_trip(state);
}

/// Ending a mode that is not on: the policy is read, and a restore file that is left over is deleted;
/// where there is none, nothing is.
pub proof fn law_resume_without_a_mode(d: EcTalk, port: u16, policy: u8, left_over: bool)
    requires
        0 <= d.used,
        d.used + 5 <= d.replies.len(),
        d.replies[d.used] == EcReply::Done,
        d.replies[d.used + 1] == EcReply::Byte(policy),
        d.replies[d.used + 2] == EcReply::Done,
        policy & 0x13 != 0x13,
        d.replies[d.used + 3] == EcReply::Flag(left_over),
        d.replies[d.used + 4] == EcReply::Done,
    ensures
        resume_run(d, port).1 is Ok,
        resume_run(d, port).0.asked == d.asked + if left_over {
            seq![
                EcRequest::Lock,
                EcRequest::ReadByte(port, 0x0414),
                EcRequest::Unlock,
                EcRequest::StateExists,
                EcRequest::RemoveState,
            ]
        } else {
            seq![
                EcRequest::Lock,
                EcRequest::ReadByte(port, 0x0414),
                EcRequest::Unlock,
                EcRequest::StateExists,
            ]
        },
{
}

/// Ending a mode that is on writes the saved byte, whatever it is, back to the policy, and deletes the
/// restore file only after that. Without a valid restore file nothing is written.
pub proof fn law_resume_writes_the_saved_byte(
    d: EcTalk,
    port: u16,
    policy: u8,
    state: SavedState,
    text: String,
)
    requires
        0 <= d.used,
        d.used + 8 <= d.replies.len(),
        d.replies[d.used] == EcReply::Done,
        d.replies[d.used + 1] == EcReply::Byte(policy),
        d.replies[d.used + 2] == EcReply::Done,
        policy & 0x13 == 0x13,
        text@ == saved_text(state),
        d.replies[d.used + 3] == EcReply::Text(text) || d.replies[d.used + 3] is Fault,
        forall|k: int| d.used + 4 <= k < d.used + 8 ==> d.replies[k] == EcReply::Done,
    ensures
        ({
            let (end, result) = resume_run(d, port);
            let looked = d.asked + seq![
                EcRequest::Lock,
                EcRequest::ReadByte(port, 0x0414),
                EcRequest::Unlock,
                EcRequest::LoadState,
            ];
            if d.replies[d.used + 3] is Fault {
                &&& result == Err::<(), Stop<EcError>>(Stop::Failed(EcError::StateNotFound))
                &&& end.asked == looked
            } else {
                &&& result is Ok
                &&& end.asked == looked + seq![
                    EcRequest::Lock,
                    EcRequest::WriteByte(port, 0x0414, state.original),
                    EcRequest::Unlock,
                    EcRequest::RemoveState,
                ]
            }
        }),
{
    law_saved_state_round_trip(state);
    assert(resume_run(d, port).0.asked =~= d.asked + seq![
        EcRequest::Lock,
        EcRequest::ReadByte(port, 0x0414),
        EcRequest::Unlock,
        EcRequest::LoadState,
    ] + if d.replies[d.used + 3] is Fault {
        Seq::empty()
    } else {
        seq![
            EcRequest::Lock,
            EcRequest::WriteByte(port, 0x0414, state.original),
            EcRequest::Unlock,
            EcRequest::RemoveState,
        ]
    });
}

/// A hold on a charger that is in native mode: the restore file decides. One's own hold that has come
/// to rest is left as it is, and one whose current flows again is written once more, with the latch.
/// Without a valid restore file, and over native protection, nothing is written.
pub proof fn law_a_repeated_hold_in_full(
    d: EcTalk,
    port: u16,
    seen: Survey,
    state: SavedState,
    text: String,
)
    requires
        0 <= d.used,
        d.used + 4 <= d.replies.len(),
        61 < seen.rsoc < 85,
        seen.policy & 0x13 == 0x13,
        text@ == saved_text(state),
        d.replies[d.used] == EcReply::Text(text) || d.replies[d.used] is Fault,
        forall|k: int| d.used + 1 <= k < d.used + 4 ==> d.replies[k] == EcReply::Done,
    ensures
        ({
            let (end, result) = hold_run(d, port, seen);
            let first = d.asked.len() as int;
            let asked = end.asked;
            let loaded = d.asked.push(EcRequest::LoadState);
            if d.replies[d.used] is Fault {
                &&& asked == loaded
                &&& result == Err::<(), Stop<EcError>>(Stop::Failed(EcError::HoldNotOurs))
            } else if state.mode is Native {
                &&& asked == loaded
                &&& result == Err::<(), Stop<EcError>>(Stop::Failed(EcError::NativeActive))
            } else if seen.target_zero && seen.readback_zero {
                asked == loaded && result is Ok
            } else if seen.target_zero || seen.readback_zero {
                &&& asked == loaded
                &&& result == Err::<(), Stop<EcError>>(Stop::Failed(EcError::CurrentsDisagree))
            } else {
                &&& asked.len() >= first + 5
                &&& asked[first] == EcRequest::LoadState
                &&& asked[first + 1] == EcRequest::Lock
                &&& asked[first + 2] matches EcRequest::WriteByte(to, addr, armed) && to == port
                    && addr == 0x0414 && armed & 0x17 == 0x17 && armed & !0x17 == seen.policy
                    & !0x17
                &&& asked[first + 3] == EcRequest::Unlock
                &&& asked[first + 4] == EcRequest::StartTimer(15_000)
            }
        }),
{
    law_saved_state_round_trip(state);
    law_a_hold_is_refused_for_a_reason(seen);
    law_a_repeated_hold(seen, Some(state));
    let d1 = load_run(d).0;
    if let HoldAgain::Rearm(armed) = hold_again_of(seen, Some(state)) {
        let d2 = write_run(d1, port, POLICY_ADDR, armed).0;
        let d3 = done_run(d2, EcRequest::StartTimer(CONFIRMATION_MS)).0;
        lemma_hold_wait_is_quiet(d3, port, armed);
        assert(d2.asked.len() == d.asked.len() + 4);
        assert(d3.asked[d.asked.len() as int + 4] == EcRequest::StartTimer(15_000));
    }
}

/// A restore file of the first version, nothing but two digits and perhaps blanks around them, is a
/// hold with that byte.
pub proof fn law_a_bare_byte_is_a_hold(byte: u8, text: Seq<char>)
    requires
        trim(text) == hex(byte as nat, 2),
    ensures
        parsed_state(text) == Ok::<SavedState, EcError>(
            SavedState { original: byte, mode: SavedMode::Hold },
        ),
{
    lemma_hex_byte_round_trip(byte);
}

/// How the lines of a restore file add up: of each kind the last one counts, and both kinds are
/// needed.
pub proof fn law_the_last_line_of_a_kind_counts(
    list: Seq<Seq<char>>,
    original: Option<u8>,
    mode: Option<SavedMode>,
    byte: u8,
)
    ensures
        scan_lines(list.push("original="@ + hex(byte as nat, 2)), list.len() as int, original, mode)
            == match mode {
            Some(mode) => Ok::<SavedState, EcError>(SavedState { original: byte, mode }),
            None => Err(EcError::StateNoMode),
        },
        scan_lines(list.push("mode="@ + "hold"@), list.len() as int, original, mode)
            == match original {
            Some(original) => Ok::<SavedState, EcError>(
                SavedState { original, mode: SavedMode::Hold },
            ),
            None => Err(EcError::StateNoOriginal),
        },
        scan_lines(list.push("mode="@ + "native"@), list.len() as int, original, mode)
            == match original {
            Some(original) => Ok::<SavedState, EcError>(
                SavedState { original, mode: SavedMode::Native },
            ),
            None => Err(EcError::StateNoOriginal),
        },
{
    reveal_with_fuel(scan_lines, 2);
    reveal_strlit("original=");
    reveal_strlit("mode=");
    reveal_strlit("hold");
    reveal_strlit("native");
    lemma_hex_byte_round_trip(byte);
    law_prefix_and_rest("mode="@ + "hold"@, "original="@, hex(byte as nat, 2));
    law_prefix_and_rest("mode="@ + "hold"@, "mode="@, "hold"@);
    law_prefix_and_rest("mode="@ + "native"@, "original="@, "native"@);
    law_prefix_and_rest("mode="@ + "native"@, "mode="@, "native"@);
    assert(("mode="@ + "hold"@)[0] == 'm');
    assert(("mode="@ + "native"@)[0] == 'm');
    assert("original="@[0] == 'o');
    assert(after("mode="@ + "hold"@, "original="@) is None) by {
        if after("mode="@ + "hold"@, "original="@) is Some {
            let left = after("mode="@ + "hold"@, "original="@)->0;
            assert(("original="@ + left)[0] == 'o');
        }
    }
    assert(after("mode="@ + "native"@, "original="@) is None) by {
        if after("mode="@ + "native"@, "original="@) is Some {
            let left = after("mode="@ + "native"@, "original="@)->0;
            assert(("original="@ + left)[0] == 'o');
        }
    }
    assert("hold"@[0] != "native"@[0]);
}

/// What spoils a restore file: a line with a byte that is none, and a line with a mode that is none.
/// A line of no kind does not.
pub proof fn law_bad_lines_spoil_the_file(
    list: Seq<Seq<char>>,
    i: int,
    original: Option<u8>,
    mode: Option<SavedMode>,
    rest: Seq<char>,
)
    requires
        0 <= i < list.len(),
    ensures
        list[i] == "original="@ + rest && hex_byte(rest) is None ==> scan_lines(
            list,
            i,
            original,
            mode,
        ) == Err::<SavedState, EcError>(EcError::StateBadOriginal),
        list[i] == "mode="@ + rest && rest != "hold"@ && rest != "native"@ ==> scan_lines(
            list,
            i,
            original,
            mode,
        ) == Err::<SavedState, EcError>(EcError::StateUnknownMode),
        list[i].len() == 0 || list[i][0] != 'o' && list[i][0] != 'm' ==> scan_lines(
            list,
            i,
            original,
            mode,
        ) == scan_lines(list, i + 1, original, mode),
{
    reveal_strlit("original=");
    reveal_strlit("mode=");
    law_prefix_and_rest(list[i], "original="@, rest);
    law_prefix_and_rest(list[i], "mode="@, rest);
    if after(list[i], "original="@) is Some {
        let left = after(list[i], "original="@)->0;
        assert(("original="@ + left)[0] == 'o');
    }
    if after(list[i], "mode="@) is Some {
        let left = after(list[i], "mode="@)->0;
        assert(("mode="@ + left)[0] == 'm');
    }
    if list[i] == "mode="@ + rest {
        assert(list[i][0] == 'm');
    }
}

/// Boards without the charge hold are left alone: nothing is asked of them, every change is refused,
/// and the status says that there is none.
pub proof fn law_other_boards_are_left_alone(d: EcTalk, ec: EcDevice, run: EcRun<()>)
    ensures
        !ec.profile.offsets.n161a_native_charge_hold ==> {
            &&& on_n161a(d, ec, run) == (
                d,
                Err::<(), Stop<EcError>>(Stop::Failed(EcError::NotN161a)),
            )
            &&& told_run(d, ec) == (
                d,
                Ok::<NativeChargeHoldStatus, Stop<EcError>>(NativeChargeHoldStatus::Unsupported),
            )
        },
        ec.profile.offsets.n161a_native_charge_hold ==> {
            &&& on_n161a(d, ec, run) == run
            &&& told_run(d, ec).0.asked.len() > d.asked.len()
            &&& told_run(d, ec).0.asked[d.asked.len() as int] == EcRequest::Lock
        },
{
    if ec.profile.offsets.n161a_native_charge_hold {
        assert forall|e: EcTalk| continues(e, (#[trigger] status_run(e, ec.rt.port)).0) by {}
        law_a_group_holds_the_lock(d, |d: EcTalk| status_run(d, ec.rt.port));
    }
}

/// The status of an N161A, with the lock around the reading: the charge that was read, and the mode
/// that the policy and the restore file tell.
pub proof fn law_the_status_in_full(d: EcTalk, ec: EcDevice, rsoc: u8, policy: u8)
    requires
        ec.profile.offsets.n161a_native_charge_hold,
        0 <= d.used,
        d.used + 5 <= d.replies.len(),
        d.replies[d.used] == EcReply::Done,
        d.replies[d.used + 1] == EcReply::Byte(rsoc),
        d.replies[d.used + 2] == EcReply::Byte(policy),
        policy & 0x13 == 0x13 ==> d.replies[d.used + 3] is Fault,
        d.replies[d.used + if policy & 0x13 == 0x13 { 4int } else { 3 }] == EcReply::Done,
    ensures
        told_run(d, ec).1 == Ok::<NativeChargeHoldStatus, Stop<EcError>>(
            if policy & 0x13 == 0x13 {
                NativeChargeHoldStatus::Holding { rsoc }
            } else {
                NativeChargeHoldStatus::Normal { rsoc }
            },
        ),
{
}

// ---- Failures, in replies ----

/// The currents are told apart: the first answer is about the target at 0x05D4, the second about its
/// readback at 0x05E4, each by the two bytes of its own word.
pub proof fn law_the_currents_are_told_apart(d: EcTalk, port: u16)
    ensures
        ({
            let (d1, target) = word_zero_run(d, port, 0x05D4);
            let (d2, readback) = word_zero_run(d1, port, 0x05E4);
            &&& target is Ok && readback is Ok ==> currents_run(d, port) == (
                d2,
                Ok::<(bool, bool), Stop<EcError>>((target->Ok_0, readback->Ok_0)),
            )
            &&& target matches Err(stop) ==> currents_run(d, port) == (
                d1,
                Err::<(bool, bool), Stop<EcError>>(stop),
            )
            &&& target is Ok ==> (readback matches Err(stop) ==> currents_run(d, port) == (
                d2,
                Err::<(bool, bool), Stop<EcError>>(stop),
            ))
        }),
{
}

/// What is seen and looked at is put together from its readings: the charge at 0x050F, the policy at
/// 0x0414 and the currents, each in its field.
pub proof fn law_a_survey_is_put_together(d: EcTalk, port: u16)
    ensures
        ({
            let (d1, rsoc) = byte_run(d, port, 0x050F);
            let (d2, policy) = byte_run(d1, port, 0x0414);
            let (d3, currents) = currents_run(d2, port);
            &&& rsoc is Ok && policy is Ok && currents is Ok ==> survey_run(d, port).0 == d3 && (
            survey_run(d, port).1 matches Ok(seen) && seen.rsoc == rsoc->Ok_0 && seen.policy
                == policy->Ok_0 && seen.target_zero == currents->Ok_0.0 && seen.readback_zero
                == currents->Ok_0.1)
            &&& rsoc is Err || policy is Err || currents is Err ==> survey_run(d, port).1 is Err
        }),
        ({
            let (d1, policy) = byte_run(d, port, 0x0414);
            let (d2, currents) = currents_run(d1, port);
            &&& policy is Ok && currents is Ok ==> look_run(d, port) == (
                d2,
                Ok::<(u8, bool, bool), Stop<EcError>>(
                    (policy->Ok_0, currents->Ok_0.0, currents->Ok_0.1),
                ),
            )
            &&& policy is Err || currents is Err ==> look_run(d, port).1 is Err
        }),
{
}

/// A refused hold and refused protection report their reason and ask nothing.
pub proof fn law_refusals_ask_nothing(d: EcTalk, port: u16, seen: Survey, error: EcError)
    ensures
        hold_start_of(seen) == HoldStart::Refuse(error) ==> hold_run(d, port, seen) == (
            d,
            Err::<(), Stop<EcError>>(Stop::Failed(error)),
        ),
        native_start_of(seen) == NativeStart::Refuse(error) ==> protection_run(d, port, seen) == (
            d,
            Err::<(), Stop<EcError>>(Stop::Failed(error)),
        ),
{
}

/// A charger that cannot be looked at is left alone: what went wrong is the outcome.
pub proof fn law_nothing_is_done_unseen(d: EcTalk, port: u16)
    requires
        batch_run(d, |d: EcTalk| survey_run(d, port)).1 is Err,
    ensures
        enable_hold_run(d, port).0 == batch_run(d, |d: EcTalk| survey_run(d, port)).0,
        enable_protection_run(d, port).0 == batch_run(d, |d: EcTalk| survey_run(d, port)).0,
        enable_hold_run(d, port).1->Err_0 == batch_run(
            d,
            |d: EcTalk| survey_run(d, port),
        ).1->Err_0,
        enable_protection_run(d, port).1->Err_0 == batch_run(
            d,
            |d: EcTalk| survey_run(d, port),
        ).1->Err_0,
        enable_hold_run(d, port).1 is Err,
        enable_protection_run(d, port).1 is Err,
{
}

/// What was seen is what is decided on.
pub proof fn law_the_decision_is_on_what_was_seen(d: EcTalk, port: u16, seen: Survey)
    requires
        batch_run(d, |d: EcTalk| survey_run(d, port)).1 == Ok::<Survey, Stop<EcError>>(seen),
    ensures
        ({
            let looked = batch_run(d, |d: EcTalk| survey_run(d, port)).0;
            &&& enable_hold_run(d, port) == hold_run(looked, port, seen)
            &&& enable_protection_run(d, port) == protection_run(looked, port, seen)
        }),
{
}

/// Nothing is written unless the policy has been saved: where that fails, the failure is the outcome,
/// and the controller is left alone.
pub proof fn law_nothing_is_written_unsaved(d: EcTalk, port: u16, seen: Survey, fault: u32)
    requires
        0 <= d.used < d.replies.len(),
        d.replies[d.used] == EcReply::Fault(fault),
    ensures
        hold_start_of(seen) is Arm ==> hold_run(d, port, seen).1 == Err::<(), Stop<EcError>>(
            Stop::Failed(EcError::Fault(fault)),
        ) && hold_run(d, port, seen).0.asked == d.asked.push(
            EcRequest::SaveState { original: seen.policy, mode: SavedMode::Hold },
        ),
        native_start_of(seen) is Arm ==> protection_run(d, port, seen).1 == Err::<
            (),
            Stop<EcError>,
        >(Stop::Failed(EcError::Fault(fault))) && protection_run(d, port, seen).0.asked
            == d.asked.push(
            EcRequest::SaveState { original: seen.policy, mode: SavedMode::Native },
        ),
{
}

/// A policy that could not be written is not waited for.
pub proof fn law_an_unwritten_policy_is_not_waited_for(d: EcTalk, port: u16, policy: u8, fault: u32)
    requires
        0 <= d.used,
        d.used + 3 <= d.replies.len(),
        d.replies[d.used] == EcReply::Done,
        d.replies[d.used + 1] == EcReply::Fault(fault),
        d.replies[d.used + 2] == EcReply::Done,
    ensures
        write_hold_run(d, port, policy).1 == Err::<(), Stop<EcError>>(
            Stop::Failed(EcError::Fault(fault)),
        ),
        write_hold_run(d, port, policy).0.asked == d.asked + seq![
            EcRequest::Lock,
            EcRequest::WriteByte(port, 0x0414, policy),
            EcRequest::Unlock,
        ],
{
}

/// The restore file is deleted only once the policy is back: where that cannot be written, the file
/// stays, and the failure is the outcome.
pub proof fn law_the_restore_file_outlives_a_failure(
    d: EcTalk,
    port: u16,
    policy: u8,
    state: SavedState,
    text: String,
    fault: u32,
)
    requires
        0 <= d.used,
        d.used + 7 <= d.replies.len(),
        d.replies[d.used] == EcReply::Done,
        d.replies[d.used + 1] == EcReply::Byte(policy),
        d.replies[d.used + 2] == EcReply::Done,
        policy & 0x13 == 0x13,
        d.replies[d.used + 3] == EcReply::Text(text),
        text@ == saved_text(state),
        d.replies[d.used + 4] == EcReply::Done,
        d.replies[d.used + 5] == EcReply::Fault(fault),
        d.replies[d.used + 6] == EcReply::Done,
    ensures
        resume_run(d, port).1 == Err::<(), Stop<EcError>>(Stop::Failed(EcError::Fault(fault))),
        resume_run(d, port).0.asked == d.asked + seq![
            EcRequest::Lock,
            EcRequest::ReadByte(port, 0x0414),
            EcRequest::Unlock,
            EcRequest::LoadState,
            EcRequest::Lock,
            EcRequest::WriteByte(port, 0x0414, state.original),
            EcRequest::Unlock,
        ],
{
    law_saved_state_round_trip(state);
}

/// A restore file that cannot be read, or that makes no sense, is no restore file: a mode that is on is
/// not taken over, and cannot be ended either.
pub proof fn law_a_spoilt_restore_file_is_none(
    d: EcTalk,
    port: u16,
    seen: Survey,
    text: String,
    error: EcError,
)
    requires
        0 <= d.used < d.replies.len(),
        seen.policy & 0x13 == 0x13,
        d.replies[d.used] == EcReply::Text(text) && parsed_state(text@) == Err::<
            SavedState,
            EcError,
        >(error) || d.replies[d.used] is Fault,
    ensures
        load_run(d).1 == Err::<SavedState, Stop<EcError>>(
            Stop::Failed(
                if d.replies[d.used] is Fault {
                    EcError::StateNotFound
                } else {
                    error
                },
            ),
        ),
        if_valid(load_run(d)).1 == Ok::<Option<SavedState>, Stop<EcError>>(None),
        61 < seen.rsoc < 85 ==> hold_run(d, port, seen).1 == Err::<(), Stop<EcError>>(
            Stop::Failed(EcError::HoldNotOurs),
        ),
        protection_run(d, port, seen).1 == Err::<(), Stop<EcError>>(
            Stop::Failed(EcError::NativeNotOurs),
        ),
        protection_run(d, port, seen).0.asked == d.asked.push(EcRequest::LoadState),
{
}

/// Protection that is on already: it counts as armed where the restore file says so, and a hold is not
/// replaced by it. Nothing is written.
pub proof fn law_repeated_protection_in_full(
    d: EcTalk,
    port: u16,
    seen: Survey,
    state: SavedState,
    text: String,
)
    requires
        0 <= d.used < d.replies.len(),
        seen.policy & 0x13 == 0x13,
        text@ == saved_text(state),
        d.replies[d.used] == EcReply::Text(text),
    ensures
        protection_run(d, port, seen).0.asked == d.asked.push(EcRequest::LoadState),
        state.mode is Native ==> protection_run(d, port, seen).1 is Ok,
        state.mode is Hold ==> protection_run(d, port, seen).1 == Err::<(), Stop<EcError>>(
            Stop::Failed(EcError::HoldActive),
        ),
{
    law_saved_state_round_trip(state);
}

/// A line of a restore file that can be made sense of: one with a byte or a known mode, or one of no
/// kind.
pub open spec fn sound_line(line: Seq<char>) -> bool {
    &&& forall|rest: Seq<char>| line == #[trigger] ("original="@ + rest) ==> hex_byte(rest) is Some
    &&& forall|rest: Seq<char>|
        line == #[trigger] ("mode="@ + rest) ==> rest == "hold"@ || rest == "native"@
}

/// `line` is one of those that begin with `prefix`.
pub open spec fn begins(line: Seq<char>, prefix: Seq<char>) -> bool {
    exists|rest: Seq<char>| line == #[trigger] (prefix + rest)
}

proof fn lemma_kinds(line: Seq<char>)
    ensures
        begins(line, "original="@) <==> after(line, "original="@) is Some,
        begins(line, "mode="@) <==> after(line, "mode="@) is Some,
        after(line, "original="@) matches Some(rest) ==> line == "original="@ + rest,
        after(line, "mode="@) matches Some(rest) ==> line == "mode="@ + rest,
        !(after(line, "original="@) is Some && after(line, "mode="@) is Some),
{
    reveal_strlit("original=");
    reveal_strlit("mode=");
    if begins(line, "original="@) {
        let rest = choose|rest: Seq<char>| line == #[trigger] ("original="@ + rest);
        law_prefix_and_rest(line, "original="@, rest);
    }
    if begins(line, "mode="@) {
        let rest = choose|rest: Seq<char>| line == #[trigger] ("mode="@ + rest);
        law_prefix_and_rest(line, "mode="@, rest);
    }
    if let Some(rest) = after(line, "original="@) {
        assert(line =~= "original="@ + rest);
        assert(line[0] == 'o');
    }
    if let Some(rest) = after(line, "mode="@) {
        assert(line =~= "mode="@ + rest);
        assert(line[0] == 'm');
    }
}

proof fn lemma_scanned(
    list: Seq<Seq<char>>,
    i: int,
    original: Option<u8>,
    mode: Option<SavedMode>,
    of_byte: int,
    of_mode: int,
    digits: Seq<char>,
    state: SavedState,
)
    requires
        0 <= i <= list.len(),
        forall|k: int| i <= k < list.len() ==> sound_line(#[trigger] list[k]),
        forall|k: int|
            i <= k < list.len() && k > of_byte ==> !begins(#[trigger] list[k], "original="@),
        forall|k: int| i <= k < list.len() && k > of_mode ==> !begins(#[trigger] list[k], "mode="@),
        of_byte < list.len(),
        of_mode < list.len(),
        of_byte >= i ==> list[of_byte] == "original="@ + digits && hex_byte(digits) == Some(
            state.original,
        ),
        of_byte < i ==> original == Some(state.original),
        of_mode >= i ==> list[of_mode] == "mode="@ + mode_word(state.mode),
        of_mode < i ==> mode == Some(state.mode),
    ensures
        scan_lines(list, i, original, mode) == Ok::<SavedState, EcError>(state),
    decreases list.len() - i,
{
    if i < list.len() {
        let line = list[i];
        lemma_kinds(line);
        assert(sound_line(line));
        if let Some(rest) = after(line, "original="@) {
            if i == of_byte {
                law_prefix_and_rest(line, "original="@, digits);
            }
            assert(begins(line, "original="@));
            lemma_scanned(
                list,
                i + 1,
                hex_byte(rest),
                mode,
                of_byte,
                of_mode,
                digits,
                state,
            );
        } else if let Some(rest) = after(line, "mode="@) {
            reveal_strlit("hold");
            reveal_strlit("native");
            assert("hold"@[0] != "native"@[0]);
            if i == of_mode {
                law_prefix_and_rest(line, "mode="@, mode_word(state.mode));
            }
            assert(begins(line, "mode="@));
            let found = if rest == "hold"@ {
                SavedMode::Hold
            } else {
                SavedMode::Native
            };
            lemma_scanned(
                list,
                i + 1,
                original,
                Some(found),
                of_byte,
                of_mode,
                digits,
                state,
            );
        } else {
            if i == of_byte {
                law_prefix_and_rest(line, "original="@, digits);
            }
            if i == of_mode {
                law_prefix_and_rest(line, "mode="@, mode_word(state.mode));
            }
            lemma_scanned(list, i + 1, original, mode, of_byte, of_mode, digits, state);
        }
    }
}

/// What a restore file of lines says: the byte of its last line with one and the mode of its last line
/// with one, wherever they stand, as long as every line makes sense.
pub proof fn law_a_restore_file_is_read_line_by_line(
    text: Seq<char>,
    of_byte: int,
    of_mode: int,
    digits: Seq<char>,
    state: SavedState,
)
    requires
        hex_byte(trim(text)) is None,
        forall|k: int| 0 <= k < lines(trim(text)).len() ==> sound_line(#[trigger] lines(trim(text))[k]),
        0 <= of_byte < lines(trim(text)).len(),
        lines(trim(text))[of_byte] == "original="@ + digits,
        hex_byte(digits) == Some(state.original),
        forall|k: int|
            of_byte < k < lines(trim(text)).len() ==> !begins(
                #[trigger] lines(trim(text))[k],
                "original="@,
            ),
        0 <= of_mode < lines(trim(text)).len(),
        lines(trim(text))[of_mode] == match state.mode {
            SavedMode::Hold => "mode="@ + "hold"@,
            SavedMode::Native => "mode="@ + "native"@,
        },
        forall|k: int|
            of_mode < k < lines(trim(text)).len() ==> !begins(
                #[trigger] lines(trim(text))[k],
                "mode="@,
            ),
    ensures
        parsed_state(text) == Ok::<SavedState, EcError>(state),
{
    lemma_scanned(lines(trim(text)), 0, None, None, of_byte, of_mode, digits, state);
}

proof fn lemma_spoilt(
    list: Seq<Seq<char>>,
    i: int,
    original: Option<u8>,
    mode: Option<SavedMode>,
    bad: int,
)
    requires
        0 <= i <= bad < list.len(),
        forall|k: int| i <= k < bad ==> sound_line(#[trigger] list[k]),
        !sound_line(list[bad]),
    ensures
        scan_lines(list, i, original, mode) == Err::<SavedState, EcError>(
            if begins(list[bad], "original="@) {
                EcError::StateBadOriginal
            } else {
                EcError::StateUnknownMode
            },
        ),
    decreases bad - i,
{
    let line = list[i];
    lemma_kinds(line);
    if i == bad {
        assert forall|rest: Seq<char>| line == #[trigger] ("original="@ + rest) implies after(
            line,
            "original="@,
        ) == Some(rest) by {
            law_prefix_and_rest(line, "original="@, rest);
        }
        assert forall|rest: Seq<char>| line == #[trigger] ("mode="@ + rest) implies after(
            line,
            "mode="@,
        ) == Some(rest) by {
            law_prefix_and_rest(line, "mode="@, rest);
        }
    } else {
        assert(sound_line(line));
        if let Some(rest) = after(line, "original="@) {
            lemma_spoilt(list, i + 1, hex_byte(rest), mode, bad);
        } else if let Some(rest) = after(line, "mode="@) {
            let found = if rest == "hold"@ {
                SavedMode::Hold
            } else {
                SavedMode::Native
            };
            lemma_spoilt(list, i + 1, original, Some(found), bad);
        } else {
            lemma_spoilt(list, i + 1, original, mode, bad);
        }
    }
}

/// The first line that makes no sense decides what is wrong with a restore file.
pub proof fn law_the_first_bad_line_is_reported(text: Seq<char>, bad: int)
    requires
        hex_byte(trim(text)) is None,
        0 <= bad < lines(trim(text)).len(),
        forall|k: int| 0 <= k < bad ==> sound_line(#[trigger] lines(trim(text))[k]),
        !sound_line(lines(trim(text))[bad]),
    ensures
        parsed_state(text) == Err::<SavedState, EcError>(
            if begins(lines(trim(text))[bad], "original="@) {
                EcError::StateBadOriginal
            } else {
                EcError::StateUnknownMode
            },
        ),
{
    lemma_spoilt(lines(trim(text)), 0, None, None, bad);
}

proof fn lemma_wanting(
    list: Seq<Seq<char>>,
    i: int,
    original: Option<u8>,
    mode: Option<SavedMode>,
)
    requires
        0 <= i <= list.len(),
        forall|k: int| i <= k < list.len() ==> sound_line(#[trigger] list[k]),
    ensures
        original is None && (forall|k: int|
            i <= k < list.len() ==> !begins(#[trigger] list[k], "original="@)) ==> scan_lines(
            list,
            i,
            original,
            mode,
        ) == Err::<SavedState, EcError>(EcError::StateNoOriginal),
        mode is None && (forall|k: int|
            i <= k < list.len() ==> !begins(#[trigger] list[k], "mode="@)) && (original is Some || (
        exists|k: int| i <= k < list.len() && begins(#[trigger] list[k], "original="@)))
            ==> scan_lines(list, i, original, mode) == Err::<SavedState, EcError>(
            EcError::StateNoMode,
        ),
    decreases list.len() - i,
{
    if i < list.len() {
        let line = list[i];
        lemma_kinds(line);
        assert(sound_line(line));
        if let Some(rest) = after(line, "original="@) {
            assert(begins(list[i], "original="@));
            lemma_wanting(list, i + 1, hex_byte(rest), mode);
        } else if let Some(rest) = after(line, "mode="@) {
            assert(begins(list[i], "mode="@));
            let found = if rest == "hold"@ {
                SavedMode::Hold
            } else {
                SavedMode::Native
            };
            lemma_wanting(list, i + 1, original, Some(found));
        } else {
            lemma_wanting(list, i + 1, original, mode);
        }
    }
}

/// A restore file of lines needs a byte and a mode. Where both are missing, the byte is asked for.
pub proof fn law_a_restore_file_needs_both(text: Seq<char>)
    requires
        hex_byte(trim(text)) is None,
        forall|k: int| 0 <= k < lines(trim(text)).len() ==> sound_line(#[trigger] lines(trim(text))[k]),
    ensures
        (forall|k: int|
            0 <= k < lines(trim(text)).len() ==> !begins(
                #[trigger] lines(trim(text))[k],
                "original="@,
            )) ==> parsed_state(text) == Err::<SavedState, EcError>(EcError::StateNoOriginal),
        (forall|k: int|
            0 <= k < lines(trim(text)).len() ==> !begins(
                #[trigger] lines(trim(text))[k],
                "mode="@,
            )) && (exists|k: int|
            0 <= k < lines(trim(text)).len() && begins(
                #[trigger] lines(trim(text))[k],
                "original="@,
            )) ==> parsed_state(text) == Err::<SavedState, EcError>(EcError::StateNoMode),
{
    lemma_wanting(lines(trim(text)), 0, None, None);
}

/// Only a text can be read as a restore file.
pub proof fn law_only_a_text_is_a_restore_file(d: EcTalk)
    requires
        0 <= d.used < d.replies.len(),
    ensures
        load_run(d).0.asked == d.asked.push(EcRequest::LoadState),
        !(d.replies[d.used] is Text) && !(d.replies[d.used] is Fault) ==> load_run(d).1 == Err::<
            SavedState,
            Stop<EcError>,
        >(Stop::Failed(EcError::UnexpectedReply)),
{
}

} // verus!
