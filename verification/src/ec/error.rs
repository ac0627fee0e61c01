//! What can go wrong with the controller, and how it is reported.
use vstd::prelude::*;

use crate::text::{around, decimal, decimal_text, hex, hex_text, joined};

verus! {

/// The states of the port driver's service.
#[derive(Clone, Copy, PartialEq, Eq, Debug, Structural)]
pub enum DriverState {
    Stopped,
    StartPending,
    StopPending,
    Running,
    ContinuePending,
    PausePending,
    Paused,
}

/// The name of a service state.
pub open spec fn state_name(state: DriverState) -> Seq<char> {
    match state {
        DriverState::Stopped => "Stopped"@,
        DriverState::StartPending => "StartPending"@,
        DriverState::StopPending => "StopPending"@,
        DriverState::Running => "Running"@,
        DriverState::ContinuePending => "ContinuePending"@,
        DriverState::PausePending => "PausePending"@,
        DriverState::Paused => "Paused"@,
    }
}

impl DriverState {
    /// The name of the state.
    pub fn name(&self) -> (name: &'static str)
        ensures
            name@ == state_name(*self),
    {
        match self {
            DriverState::Stopped => "Stopped",
            DriverState::StartPending => "StartPending",
            DriverState::StopPending => "StopPending",
            DriverState::Running => "Running",
            DriverState::ContinuePending => "ContinuePending",
            DriverState::PausePending => "PausePending",
            DriverState::Paused => "Paused",
        }
    }
}

/// The functions of the port driver's library.
#[derive(Clone, Copy, PartialEq, Eq, Debug, Structural)]
pub enum DriverExport {
    IsInpOutDriverOpen,
    Out32,
    Inp32,
}

/// The name of a library function.
pub open spec fn export_name(export: DriverExport) -> Seq<char> {
    match export {
        DriverExport::IsInpOutDriverOpen => "IsInpOutDriverOpen"@,
        DriverExport::Out32 => "Out32"@,
        DriverExport::Inp32 => "Inp32"@,
    }
}

impl DriverExport {
    /// The name of the function.
    pub fn name(&self) -> (name: &'static str)
        ensures
            name@ == export_name(*self),
    {
        match self {
            DriverExport::IsInpOutDriverOpen => "IsInpOutDriverOpen",
            DriverExport::Out32 => "Out32",
            DriverExport::Inp32 => "Inp32",
        }
    }
}

/// Why an operation on the controller failed.
#[derive(Clone, Copy, PartialEq, Eq, Debug, Structural)]
pub enum EcError {
    /// The port, the file or the driver failed; the number identifies the failure to whoever
    /// performed the request.
    Fault(u32),
    /// The reply on record does not answer the request.
    UnexpectedReply,
    /// No supported chip answers on any known port.
    ChipNotFound,
    /// The profile names no temperature sensor in the controller's memory.
    NoRamSensor,
    /// No candidate window shows a credible temperature.
    HramNotFound,
    /// The board has no profile.
    UnsupportedBoard,
    /// The requested duty cycle is above the safe limit.
    DutyTooHigh(u8),
    /// The same on the boards with the fixed register map.
    DutyDangerous,
    UnknownPowerProfile(u8),
    /// The board is not an N161A.
    NotN161a,
    /// Too little charge for a hold.
    HoldTooLow(u8),
    /// Too much charge for a hold.
    HoldTooHigh(u8),
    StateNotFound,
    StateBadOriginal,
    StateUnknownMode,
    StateNoOriginal,
    StateNoMode,
    /// The hold bits are set and no restore state says by whom.
    HoldNotOurs,
    /// The native bits are set and no restore state says by whom.
    NativeNotOurs,
    /// Native protection is armed while a hold was asked for.
    NativeActive,
    /// A hold is active while native protection was asked for.
    HoldActive,
    /// The charge-current target and its readback disagree.
    CurrentsDisagree,
    /// Policy bit 1 is set outside the known modes.
    UnknownPolicy(u8),
    HoldNeedsCharging,
    NativeNeedsCharging,
    /// Too much charge to arm native protection.
    NativeTooHigh(u8),
    HoldNotConfirmed,
    NativeNotConfirmed,
    /// The driver service is in a state that it should not be in.
    ServiceState(DriverState),
    ServiceLeftStarting(DriverState),
    ServiceLeftStopping(DriverState),
    ServiceStartTimeout,
    ServiceStopTimeout,
    /// The driver's library cannot be loaded.
    LibraryMissing,
    /// The driver's library lacks a function.
    ExportMissing(DriverExport),
    /// The driver is there and does not open.
    DriverClosed,
}

/// The text of an error on the board named `board`. A [`EcError::Fault`] has none: its own text
/// stands.
pub open spec fn error_text(error: EcError, board: Seq<char>) -> Option<Seq<char>> {
    match error {
        EcError::Fault(_) => None,
        EcError::UnexpectedReply => Some("The reply does not answer the request"@),
        EcError::ChipNotFound => Some("ITE IT5570/IT8987 chip not found on any known port"@),
        EcError::NoRamSensor => Some("Profile "@ + board + " has no RAM-based CPU sensor"@),
        EcError::UnsupportedBoard => Some("Unsupported motherboard: "@ + board),
        EcError::DutyDangerous => Some("Duty cycle too high, it's dangerous!"@),
        EcError::HramNotFound => Some("Failed to detect HRAM window base address"@),
        EcError::DutyTooHigh(duty) => Some(
            "Requested fan duty cycle ("@ + decimal(duty as nat) + ") exceeds safe limit (220)."@,
        ),
        EcError::UnknownPowerProfile(byte) => Some(
            "Unknown power profile: "@ + decimal(byte as nat),
        ),
        EcError::NotN161a => Some(
            "native charge hold is supported only on the LECOO N161A"@,
        ),
        EcError::HoldTooLow(rsoc) => Some(
            "N161A charge hold requires charge above 61% and below 85% (current: "@ + decimal(
                rsoc as nat,
            ) + "%); at 61% or below use `lecoo-ctrl charge native`"@,
        ),
        EcError::HoldTooHigh(rsoc) => Some(
            "N161A charge hold requires charge above 61% and below 85% (current: "@ + decimal(
                rsoc as nat,
            ) + "%); wait until charge falls below 85%"@,
        ),
        EcError::StateNotFound => Some("native charge-hold restore state was not found"@),
        EcError::StateBadOriginal => Some(
            "native charge state has an invalid original policy"@,
        ),
        EcError::StateUnknownMode => Some("native charge state has an unknown mode"@),
        EcError::StateNoOriginal => Some("native charge state has no original policy"@),
        EcError::StateNoMode => Some("native charge state has no mode"@),
        EcError::HoldNotOurs => Some(
            "native charge hold is active, but no valid restore state exists; refusing to adopt it"@,
        ),
        EcError::NativeNotOurs => Some(
            "native charge policy is active, but no valid restore state exists; refusing to adopt it"@,
        ),
        EcError::NativeActive => Some(
            "N161A native protection is already active; run `lecoo-ctrl charge resume` before switching to hold"@,
        ),
        EcError::HoldActive => Some(
            "N161A charge hold is already active; run `lecoo-ctrl charge resume` before switching to native protection"@,
        ),
        EcError::CurrentsDisagree => Some(
            "N161A charge-current target and readback disagree; wait and query status before retrying"@,
        ),
        EcError::UnknownPolicy(policy) => Some(
            "N161A policy bit1 is already set in an unrecognized state (policy 0x"@ + hex(
                policy as nat,
                2,
            ) + ")"@,
        ),
        EcError::HoldNeedsCharging => Some(
            "N161A charge hold requires active charging current; connect AC power and wait for charging to begin"@,
        ),
        EcError::NativeNeedsCharging => Some(
            "N161A native protection requires active charging current; connect AC power and wait for charging to begin"@,
        ),
        EcError::NativeTooHigh(rsoc) => Some(
            "experimental N161A native protection must initially be armed at or below 60% (current: "@
                + decimal(rsoc as nat) + "%)"@,
        ),
        EcError::HoldNotConfirmed => Some(
            "N161A charge hold was written but not confirmed within 15 seconds; do not repeat it automatically, use `lecoo-ctrl charge resume`"@,
        ),
        EcError::NativeNotConfirmed => Some(
            "N161A native protection was written but active charging was not confirmed within 15 seconds; do not repeat automatically, use `lecoo-ctrl charge resume`"@,
        ),
        EcError::ServiceState(state) => Some(
            "Unexpected inpoutx64 service state: "@ + state_name(state),
        ),
        EcError::ServiceLeftStarting(state) => Some(
            "inpoutx64 changed to unexpected state while starting: "@ + state_name(state),
        ),
        EcError::ServiceLeftStopping(state) => Some(
            "inpoutx64 changed to unexpected state while stopping: "@ + state_name(state),
        ),
        EcError::ServiceStartTimeout => Some("Timed out waiting for inpoutx64 to start"@),
        EcError::ServiceStopTimeout => Some("Timed out waiting for inpoutx64 to stop"@),
        EcError::LibraryMissing => Some(
            "Failed to load inpoutx64.dll. Ensure it's placed next to daemon.exe."@,
        ),
        EcError::ExportMissing(export) => Some(
            export_name(export) + " export not found in DLL"@,
        ),
        EcError::DriverClosed => Some(
            "InpOut driver failed to open. Try running as Administrator."@,
        ),
    }
}

impl EcError {
    /// The error in words, where it has words of its own.
    pub fn message(&self, board: &str) -> (text: Option<String>)
        ensures
            match text {
                Some(words) => error_text(*self, board@) == Some(words@),
                None => error_text(*self, board@) is None,
            },
    {
        let words: String = match *self {
            EcError::Fault(_) => {
                return None;
            },
            EcError::UnexpectedReply => "The reply does not answer the request".to_owned(),
            EcError::ChipNotFound => "ITE IT5570/IT8987 chip not found on any known port".to_owned(),
            EcError::NoRamSensor => around(
                "Profile ",
                board.to_owned(),
                " has no RAM-based CPU sensor",
            ),
            EcError::UnsupportedBoard => joined("Unsupported motherboard: ", board),
            EcError::DutyDangerous => "Duty cycle too high, it's dangerous!".to_owned(),
            EcError::HramNotFound => "Failed to detect HRAM window base address".to_owned(),
            EcError::DutyTooHigh(duty) => around(
                "Requested fan duty cycle (",
                decimal_text(duty as u64),
                ") exceeds safe limit (220).",
            ),
            EcError::UnknownPowerProfile(byte) => joined(
                "Unknown power profile: ",
                decimal_text(byte as u64).as_str(),
            ),
            EcError::NotN161a => "native charge hold is supported only on the LECOO N161A".to_owned(),
            EcError::HoldTooLow(rsoc) => around(
                "N161A charge hold requires charge above 61% and below 85% (current: ",
                decimal_text(rsoc as u64),
                "%); at 61% or below use `lecoo-ctrl charge native`",
            ),
            EcError::HoldTooHigh(rsoc) => around(
                "N161A charge hold requires charge above 61% and below 85% (current: ",
                decimal_text(rsoc as u64),
                "%); wait until charge falls below 85%",
            ),
            EcError::StateNotFound => "native charge-hold restore state was not found".to_owned(),
            EcError::StateBadOriginal => "native charge state has an invalid original policy".to_owned(),
            EcError::StateUnknownMode => "native charge state has an unknown mode".to_owned(),
            EcError::StateNoOriginal => "native charge state has no original policy".to_owned(),
            EcError::StateNoMode => "native charge state has no mode".to_owned(),
            EcError::HoldNotOurs =>
                "native charge hold is active, but no valid restore state exists; refusing to adopt it".to_owned(),
            EcError::NativeNotOurs =>
                "native charge policy is active, but no valid restore state exists; refusing to adopt it".to_owned(),
            EcError::NativeActive =>
                "N161A native protection is already active; run `lecoo-ctrl charge resume` before switching to hold".to_owned(),
            EcError::HoldActive =>
                "N161A charge hold is already active; run `lecoo-ctrl charge resume` before switching to native protection".to_owned(),
            EcError::CurrentsDisagree =>
                "N161A charge-current target and readback disagree; wait and query status before retrying".to_owned(),
            EcError::UnknownPolicy(policy) => around(
                "N161A policy bit1 is already set in an unrecognized state (policy 0x",
                hex_text(policy as u64, 2),
                ")",
            ),
            EcError::HoldNeedsCharging =>
                "N161A charge hold requires active charging current; connect AC power and wait for charging to begin".to_owned(),
            EcError::NativeNeedsCharging =>
                "N161A native protection requires active charging current; connect AC power and wait for charging to begin".to_owned(),
            EcError::NativeTooHigh(rsoc) => around(
                "experimental N161A native protection must initially be armed at or below 60% (current: ",
                decimal_text(rsoc as u64),
                "%)",
            ),
            EcError::HoldNotConfirmed =>
                "N161A charge hold was written but not confirmed within 15 seconds; do not repeat it automatically, use `lecoo-ctrl charge resume`".to_owned(),
            EcError::NativeNotConfirmed =>
                "N161A native protection was written but active charging was not confirmed within 15 seconds; do not repeat automatically, use `lecoo-ctrl charge resume`".to_owned(),
            EcError::ServiceState(state) => joined(
                "Unexpected inpoutx64 service state: ",
                state.name(),
            ),
            EcError::ServiceLeftStarting(state) => joined(
                "inpoutx64 changed to unexpected state while starting: ",
                state.name(),
            ),
            EcError::ServiceLeftStopping(state) => joined(
                "inpoutx64 changed to unexpected state while stopping: ",
                state.name(),
            ),
            EcError::ServiceStartTimeout => "Timed out waiting for inpoutx64 to start".to_owned(),
            EcError::ServiceStopTimeout => "Timed out waiting for inpoutx64 to stop".to_owned(),
            EcError::LibraryMissing =>
                "Failed to load inpoutx64.dll. Ensure it's placed next to daemon.exe.".to_owned(),
            EcError::ExportMissing(export) => joined(export.name(), " export not found in DLL"),
            EcError::DriverClosed =>
                "InpOut driver failed to open. Try running as Administrator.".to_owned(),
        };
        Some(words)
    }
}

/// Only a fault has no words of its own.
pub proof fn law_only_faults_have_no_words(error: EcError, board: Seq<char>)
    ensures
        error_text(error, board) is None <==> error is Fault,
{
}

/// Where an error is about a number, a state or a name, its text gives just that.
pub proof fn law_errors_name_what_they_are_about(
    n: u8,
    state: DriverState,
    export: DriverExport,
    board: Seq<char>,
)
    ensures
        error_text(EcError::DutyTooHigh(n), board) == Some(
            "Requested fan duty cycle ("@ + decimal(n as nat) + ") exceeds safe limit (220)."@,
        ),
        error_text(EcError::UnknownPowerProfile(n), board) == Some(
            "Unknown power profile: "@ + decimal(n as nat),
        ),
        error_text(EcError::HoldTooLow(n), board) == Some(
            "N161A charge hold requires charge above 61% and below 85% (current: "@ + decimal(
                n as nat,
            ) + "%); at 61% or below use `lecoo-ctrl charge native`"@,
        ),
        error_text(EcError::HoldTooHigh(n), board) == Some(
            "N161A charge hold requires charge above 61% and below 85% (current: "@ + decimal(
                n as nat,
            ) + "%); wait until charge falls below 85%"@,
        ),
        error_text(EcError::NativeTooHigh(n), board) == Some(
            "experimental N161A native protection must initially be armed at or below 60% (current: "@
                + decimal(n as nat) + "%)"@,
        ),
        error_text(EcError::UnknownPolicy(n), board) == Some(
            "N161A policy bit1 is already set in an unrecognized state (policy 0x"@ + hex(
                n as nat,
                2,
            ) + ")"@,
        ),
        error_text(EcError::ServiceState(state), board) == Some(
            "Unexpected inpoutx64 service state: "@ + state_name(state),
        ),
        error_text(EcError::ServiceLeftStarting(state), board) == Some(
            "inpoutx64 changed to unexpected state while starting: "@ + state_name(state),
        ),
        error_text(EcError::ServiceLeftStopping(state), board) == Some(
            "inpoutx64 changed to unexpected state while stopping: "@ + state_name(state),
        ),
        error_text(EcError::ExportMissing(export), board) == Some(
            export_name(export) + " export not found in DLL"@,
        ),
        error_text(EcError::NoRamSensor, board) == Some(
            "Profile "@ + board + " has no RAM-based CPU sensor"@,
        ),
        error_text(EcError::UnsupportedBoard, board) == Some("Unsupported motherboard: "@ + board),
{
}

/// The states and the functions go by names that differ.
pub proof fn law_names_differ(
    one: DriverState,
    other: DriverState,
    export: DriverExport,
    another: DriverExport,
)
    ensures
        state_name(one) == state_name(other) ==> one == other,
        export_name(export) == export_name(another) ==> export == another,
        one is Running ==> state_name(one) == "Running"@,
        one is Stopped ==> state_name(one) == "Stopped"@,
        one is Paused ==> state_name(one) == "Paused"@,
        one is StartPending ==> state_name(one) == "StartPending"@,
        one is StopPending ==> state_name(one) == "StopPending"@,
        one is PausePending ==> state_name(one) == "PausePending"@,
        one is ContinuePending ==> state_name(one) == "ContinuePending"@,
        export is Out32 ==> export_name(export) == "Out32"@,
        export is Inp32 ==> export_name(export) == "Inp32"@,
        export is IsInpOutDriverOpen ==> export_name(export) == "IsInpOutDriverOpen"@,
{
    reveal_strlit("Stopped");
    reveal_strlit("StartPending");
    reveal_strlit("StopPending");
    reveal_strlit("Running");
    reveal_strlit("ContinuePending");
    reveal_strlit("PausePending");
    reveal_strlit("Paused");
    reveal_strlit("IsInpOutDriverOpen");
    reveal_strlit("Out32");
    reveal_strlit("Inp32");
    assert("Stopped"@.len() == 7 && "Running"@.len() == 7 && "Stopped"@[0] != "Running"@[0]);
    assert("PausePending"@.len() == 12 && "StartPending"@.len() == 12 && "PausePending"@[0]
        != "StartPending"@[0]);
    assert("StopPending"@.len() == 11 && "ContinuePending"@.len() == 15 && "Paused"@.len() == 6);
    assert("Out32"@.len() == 5 && "Inp32"@.len() == 5 && "IsInpOutDriverOpen"@.len() == 18);
    assert("Out32"@[0] != "Inp32"@[0]);
    assert(state_name(one).len() == state_name(other).len() && state_name(one)[0] == state_name(
        other,
    )[0] ==> one == other);
    assert(export_name(export).len() == export_name(another).len() && export_name(export)[0]
        == export_name(another)[0] ==> export == another);
}

/// The errors that are about nothing but themselves, in words.
pub proof fn law_plain_errors_in_words(board: Seq<char>)
    ensures
        error_text(EcError::ChipNotFound, board) == Some(
            "ITE IT5570/IT8987 chip not found on any known port"@,
        ),
        error_text(EcError::HramNotFound, board) == Some(
            "Failed to detect HRAM window base address"@,
        ),
        error_text(EcError::DutyDangerous, board) == Some("Duty cycle too high, it's dangerous!"@),
        error_text(EcError::NotN161a, board) == Some(
            "native charge hold is supported only on the LECOO N161A"@,
        ),
        error_text(EcError::StateNotFound, board) == Some(
            "native charge-hold restore state was not found"@,
        ),
        error_text(EcError::StateBadOriginal, board) == Some(
            "native charge state has an invalid original policy"@,
        ),
        error_text(EcError::StateUnknownMode, board) == Some(
            "native charge state has an unknown mode"@,
        ),
        error_text(EcError::StateNoOriginal, board) == Some(
            "native charge state has no original policy"@,
        ),
        error_text(EcError::StateNoMode, board) == Some("native charge state has no mode"@),
        error_text(EcError::ServiceStartTimeout, board) == Some(
            "Timed out waiting for inpoutx64 to start"@,
        ),
        error_text(EcError::ServiceStopTimeout, board) == Some(
            "Timed out waiting for inpoutx64 to stop"@,
        ),
        error_text(EcError::LibraryMissing, board) == Some(
            "Failed to load inpoutx64.dll. Ensure it's placed next to daemon.exe."@,
        ),
        error_text(EcError::DriverClosed, board) == Some(
            "InpOut driver failed to open. Try running as Administrator."@,
        ),
        error_text(EcError::CurrentsDisagree, board) == Some(
            "N161A charge-current target and readback disagree; wait and query status before retrying"@,
        ),
        error_text(EcError::HoldNotOurs, board) == Some(
            "native charge hold is active, but no valid restore state exists; refusing to adopt it"@,
        ),
        error_text(EcError::NativeNotOurs, board) == Some(
            "native charge policy is active, but no valid restore state exists; refusing to adopt it"@,
        ),
        error_text(EcError::NativeActive, board) == Some(
            "N161A native protection is already active; run `lecoo-ctrl charge resume` before switching to hold"@,
        ),
        error_text(EcError::HoldActive, board) == Some(
            "N161A charge hold is already active; run `lecoo-ctrl charge resume` before switching to native protection"@,
        ),
        error_text(EcError::HoldNeedsCharging, board) == Some(
            "N161A charge hold requires active charging current; connect AC power and wait for charging to begin"@,
        ),
        error_text(EcError::NativeNeedsCharging, board) == Some(
            "N161A native protection requires active charging current; connect AC power and wait for charging to begin"@,
        ),
        error_text(EcError::HoldNotConfirmed, board) == Some(
            "N161A charge hold was written but not confirmed within 15 seconds; do not repeat it automatically, use `lecoo-ctrl charge resume`"@,
        ),
        error_text(EcError::NativeNotConfirmed, board) == Some(
            "N161A native protection was written but active charging was not confirmed within 15 seconds; do not repeat automatically, use `lecoo-ctrl charge resume`"@,
        ),
{
}

} // verus!
