//! The daemon: how it starts, how it serves a connection, and what it does when something happens
//! to the machine.
use vstd::prelude::*;

use crate::ec::device::BoardProfile;
use crate::ec::error::EcError;
use crate::services::InternalEvent;
use crate::session::{asks, Dialogue, Session, Stop};
use crate::telemetry::TelemetryData;
use crate::text::{around, hex, hex_byte, hex_text, lemma_hex_byte_round_trip, same_text};
use crate::types::{
    BreathConfig, Capabilities, ChargeIntent, CurrentSettings, IpcRequest, KeyboardBacklightLevel,
    PowerLedMode, PowerProfile, UnsupportedInfo,
};

verus! {

// ---- Starting ----

/// The place of the first argument from the `i`-th on that reads `word`.
pub open spec fn argument_from(args: Seq<String>, word: Seq<char>, i: int) -> Option<int>
    decreases args.len() - i,
{
    if i < 0 || i >= args.len() {
        None
    } else if args[i]@ == word {
        Some(i)
    } else {
        argument_from(args, word, i + 1)
    }
}

/// The place of the first profile from the `i`-th on with the name `id`.
pub open spec fn profile_from(profiles: Seq<BoardProfile>, id: Seq<char>, i: int) -> Option<int>
    decreases profiles.len() - i,
{
    if i < 0 || i >= profiles.len() {
        None
    } else if profiles[i].id@ == id {
        Some(i)
    } else {
        profile_from(profiles, id, i + 1)
    }
}

/// The place of the first argument that reads `word`.
pub fn argument_position(args: &Vec<String>, word: &str) -> (place: Option<usize>)
    ensures
        match place {
            Some(i) => argument_from(args@, word@, 0) == Some(i as int) && i < args@.len(),
            None => argument_from(args@, word@, 0) is None,
        },
{
    let mut i: usize = 0;
    while i < args.len()
        invariant
            i <= args@.len(),
            argument_from(args@, word@, i as int) == argument_from(args@, word@, 0),
        decreases args.len() - i,
    {
        if same_text(args[i].as_str(), word) {
            return Some(i);
        }
        i = i + 1;
    }
    None
}

/// The place of the profile with the name `id`.
pub fn by_id(profiles: &Vec<BoardProfile>, id: &str) -> (place: Option<usize>)
    ensures
        match place {
            Some(i) => profile_from(profiles@, id@, 0) == Some(i as int) && i < profiles@.len(),
            None => profile_from(profiles@, id@, 0) is None,
        },
{
    let mut i: usize = 0;
    while i < profiles.len()
        invariant
            i <= profiles@.len(),
            profile_from(profiles@, id@, i as int) == profile_from(profiles@, id@, 0),
        decreases profiles.len() - i,
    {
        if same_text(profiles[i].id.as_str(), id) {
            return Some(i);
        }
        i = i + 1;
    }
    None
}

/// The profile to use, by its place, and whether it was forced by an argument. A forced profile
/// that is missing or unknown is not replaced by the detected one.
pub open spec fn chosen_profile(
    args: Seq<String>,
    profiles: Seq<BoardProfile>,
    detected: Option<int>,
) -> Option<(int, bool)> {
    match argument_from(args, "--profile"@, 0) {
        Some(i) => if i + 1 < args.len() {
            match profile_from(profiles, args[i + 1]@, 0) {
                Some(place) => Some((place, true)),
                None => None,
            }
        } else {
            None
        },
        None => match detected {
            Some(place) => Some((place, false)),
            None => None,
        },
    }
}

/// A place as a mathematical integer.
pub open spec fn place(of: Option<usize>) -> Option<int> {
    match of {
        Some(i) => Some(i as int),
        None => None,
    }
}

/// Finds the profile to use, and whether it was forced. `detected` is the place of the profile
/// of the board that the machine reports.
pub fn resolve_profile(
    args: &Vec<String>,
    profiles: &Vec<BoardProfile>,
    detected: Option<usize>,
) -> (chosen: Option<(usize, bool)>)
    ensures
        match chosen {
            Some((i, forced)) => chosen_profile(args@, profiles@, place(detected)) == Some(
                (i as int, forced),
            ),
            None => chosen_profile(args@, profiles@, place(detected)) is None,
        },
{
    if let Some(i) = argument_position(args, "--profile") {
        if i >= args.len() - 1 {
            return None;
        }
        return match by_id(profiles, args[i + 1].as_str()) {
            Some(found) => Some((found, true)),
            None => None,
        };
    }
    match detected {
        Some(found) => Some((found, false)),
        None => None,
    }
}

/// The name of a chip with its version.
pub open spec fn chip_text(id1: u8, id2: u8, ver: u8) -> Seq<char> {
    "IT"@ + hex(id1 as nat, 2) + hex(id2 as nat, 2) + "-"@ + hex(ver as nat, 2)
}

/// The name of a chip with its version.
pub fn chip_label(id1: u8, id2: u8, ver: u8) -> (label: String)
    ensures
        label@ == chip_text(id1, id2, ver),
{
    let mut label = around("IT", hex_text(id1 as u64, 2), hex_text(id2 as u64, 2).as_str());
    label.append("-");
    label.append(hex_text(ver as u64, 2).as_str());
    label
}

/// `reports` tell clients and telemetry about an unsupported board.
pub open spec fn tell_unsupported(
    reports: (UnsupportedInfo, TelemetryData),
    board: String,
    host: String,
    chip: Option<(u8, u8, u8)>,
) -> bool {
    &&& reports.0.board == board
    &&& match chip {
        Some((id1, id2, ver)) => {
            &&& reports.0.chip matches Some(label) && label@ == chip_text(id1, id2, ver)
            &&& reports.1 matches TelemetryData::Unsupported { host: from, chip: Some(label) }
                && from == host && label@ == chip_text(id1, id2, ver)
        },
        None => {
            &&& reports.0.chip is None
            &&& reports.1 matches TelemetryData::Unsupported { host: from, chip: None } && from
                == host
        },
    }
}

/// What is told about an unsupported board: to clients, and to telemetry.
pub fn unsupported_reports(board: String, host: String, chip: Option<(u8, u8, u8)>) -> (reports: (
    UnsupportedInfo,
    TelemetryData,
))
    ensures
        tell_unsupported(reports, board, host, chip),
{
    let label: Option<String> = match chip {
        Some((id1, id2, ver)) => Some(chip_label(id1, id2, ver)),
        None => None,
    };
    let copy: Option<String> = match &label {
        Some(text) => Some(text.clone()),
        None => None,
    };
    (UnsupportedInfo { board, chip: label }, TelemetryData::Unsupported { host, chip: copy })
}

/// `report` is what telemetry is told about a start.
pub open spec fn tells_start(
    report: Result<Option<TelemetryData>, EcError>,
    settings: CurrentSettings,
    chip: Result<(u8, u8, u8), EcError>,
    host: String,
    profile: String,
    forced_profile: bool,
    hram_offset: u16,
    caps: Capabilities,
    restore_error: Option<String>,
) -> bool {
    if !settings.telemetry_enabled {
        report == Ok::<Option<TelemetryData>, EcError>(None)
    } else {
        match chip {
            Err(error) => report == Err::<Option<TelemetryData>, EcError>(error),
            Ok((id1, id2, ver)) => report matches Ok(
                Some(
                    TelemetryData::Startup {
                        host: from,
                        profile: id,
                        forced_profile: forced,
                        firmware,
                        hram_offset: offset,
                        caps: abilities,
                        restore_error: failure,
                    },
                ),
            ) && from == host && id == profile && forced == forced_profile && firmware@
                == chip_text(id1, id2, ver) && offset == hram_offset && *abilities
                == caps && failure == restore_error,
        }
    }
}

/// What telemetry is told about a start. Nothing is told where telemetry is off; where the chip
/// cannot be read, the start fails. The chip is read only where telemetry is on.
pub fn startup_report(
    settings: &CurrentSettings,
    chip: Result<(u8, u8, u8), EcError>,
    host: String,
    profile: String,
    forced_profile: bool,
    hram_offset: u16,
    caps: Capabilities,
    restore_error: Option<String>,
) -> (report: Result<Option<TelemetryData>, EcError>)
    ensures
        tells_start(
            report,
            *settings,
            chip,
            host,
            profile,
            forced_profile,
            hram_offset,
            caps,
            restore_error,
        ),
{
    if !settings.telemetry_enabled {
        return Ok(None);
    }
    let (id1, id2, ver) = chip?;
    Ok(
        Some(
            TelemetryData::Startup {
                host,
                profile,
                forced_profile,
                firmware: chip_label(id1, id2, ver),
                hram_offset,
                caps: Box::new(caps),
                restore_error,
            },
        ),
    )
}

// ---- The start as a whole ----

/// A chip: its two identification bytes and its version.
#[derive(Clone, Copy, PartialEq, Eq, Debug, Structural)]
pub struct FoundChip {
    pub id1: u8,
    pub id2: u8,
    pub ver: u8,
}

/// What the start of the daemon asks for.
#[derive(Clone, Copy, PartialEq, Eq, Debug, Structural)]
pub enum StartRequest {
    /// Connect to the system's service manager.
    StartService,
    /// Wait until the service manager has set the service up.
    AwaitService,
    /// Wait this many milliseconds.
    Sleep(u64),
    /// Tell the user that the daemon should be run as a service.
    WarnManual,
    /// Read the settings, or take the default ones.
    LoadSettings,
    InitTelemetry { enabled: bool, client_id: u64 },
    /// Listen for clients.
    Bind,
    /// Find the profile of the board that the machine reports.
    DetectBoard,
    OpenDevice { profile: usize, insecure: bool },
    /// Print what is known of the board.
    DumpProfile,
    /// Look for a known chip on a board that is not supported.
    ProbeChip,
    /// Tell clients and telemetry that the board is not supported.
    ReportUnsupported(Option<FoundChip>),
    /// Apply the settings to the hardware.
    Restore(CurrentSettings),
    ReadChip,
    /// Tell telemetry about the start.
    ReportStart { profile: usize, forced: bool, chip: FoundChip, restored: bool },
    /// Let clients use the device and the settings.
    Publish(CurrentSettings),
    /// Listen to the system's events.
    ListenToEvents,
}

/// The answers.
#[derive(Clone, Copy, PartialEq, Eq, Debug, Structural)]
pub enum StartReply {
    Done,
    Failed,
    Settings(CurrentSettings),
    Board(Option<usize>),
    Chip(FoundChip),
}

/// Why the daemon does not start.
#[derive(Clone, Copy, PartialEq, Eq, Debug, Structural)]
pub enum StartError {
    Device,
    Dump,
    Chip,
    Bind,
    /// The answer does not fit the request.
    UnexpectedReply,
}

/// What the daemon does once it has started.
#[derive(Clone, Copy, PartialEq, Eq, Debug, Structural)]
pub enum Launch {
    /// Serve clients for ever.
    Serve,
    /// End: the profile has been printed.
    Dumped,
}

pub type StartIo = Session<StartRequest, StartReply>;

pub type StartTalk = Dialogue<StartRequest, StartReply>;

pub type StartRun<T> = (StartTalk, Result<T, Stop<StartError>>);

/// One request.
pub open spec fn request_run(d: StartTalk, request: StartRequest) -> StartRun<StartReply> {
    asks::<StartRequest, StartReply, StartError>(d, request)
}

/// Whether an argument is among the arguments.
pub open spec fn has_argument(args: Seq<String>, word: Seq<char>) -> bool {
    argument_from(args, word, 0) is Some
}

/// How long a service on Windows waits before it goes on, in milliseconds.
pub const SERVICE_DELAY_MS: u64 = 2000;

/// Connecting to the service manager. On Windows that is only done when asked for, and the daemon
/// then waits until the service has been set up.
pub open spec fn service_run(d: StartTalk, args: Seq<String>, windows: bool) -> StartRun<()> {
    if windows && !has_argument(args, "--service"@) {
        match request_run(d, StartRequest::WarnManual) {
            (d, Err(stop)) => (d, Err(stop)),
            (d, Ok(_)) => (d, Ok(())),
        }
    } else {
        match request_run(d, StartRequest::StartService) {
            (d, Err(stop)) => (d, Err(stop)),
            (d, Ok(_)) => if !windows {
                (d, Ok(()))
            } else {
                match request_run(d, StartRequest::AwaitService) {
                    (d, Err(stop)) => (d, Err(stop)),
                    (d, Ok(_)) => match request_run(d, StartRequest::Sleep(SERVICE_DELAY_MS)) {
                        (d, Err(stop)) => (d, Err(stop)),
                        (d, Ok(_)) => (d, Ok(())),
                    },
                }
            },
        }
    }
}

/// Reading the settings, setting telemetry up, and listening for clients: the settings, and whether
/// clients can be listened for.
pub open spec fn setup_run(d: StartTalk) -> StartRun<(CurrentSettings, bool)> {
    match request_run(d, StartRequest::LoadSettings) {
        (d, Err(stop)) => (d, Err(stop)),
        (d, Ok(StartReply::Settings(settings))) => match request_run(
            d,
            StartRequest::InitTelemetry {
                enabled: settings.telemetry_enabled,
                client_id: settings.telemetry_client_id,
            },
        ) {
            (d, Err(stop)) => (d, Err(stop)),
            (d, Ok(_)) => match request_run(d, StartRequest::Bind) {
                (d, Err(stop)) => (d, Err(stop)),
                (d, Ok(reply)) => (d, Ok((settings, reply is Done))),
            },
        },
        (d, Ok(_)) => (d, Err(Stop::Failed(StartError::UnexpectedReply))),
    }
}

/// Serving, if clients can be listened for. That they cannot is reported only now.
pub open spec fn serve_run(d: StartTalk, bound: bool) -> StartRun<Launch> {
    if bound {
        (d, Ok(Launch::Serve))
    } else {
        (d, Err(Stop::Failed(StartError::Bind)))
    }
}

/// Starting on a board that is not supported.
pub open spec fn unsupported_run(d: StartTalk, bound: bool) -> StartRun<Launch> {
    match request_run(d, StartRequest::ProbeChip) {
        (d, Err(stop)) => (d, Err(stop)),
        (d, Ok(reply)) => {
            let chip = match reply {
                StartReply::Chip(chip) => Some(chip),
                _ => None,
            };
            match request_run(d, StartRequest::ReportUnsupported(chip)) {
                (d, Err(stop)) => (d, Err(stop)),
                (d, Ok(_)) => serve_run(d, bound),
            }
        },
    }
}

/// Going over to service, once the board is in use.
pub open spec fn publish_run(d: StartTalk, settings: CurrentSettings, bound: bool) -> StartRun<
    Launch,
> {
    match request_run(d, StartRequest::Publish(settings)) {
        (d, Err(stop)) => (d, Err(stop)),
        (d, Ok(_)) => match request_run(d, StartRequest::ListenToEvents) {
            (d, Err(stop)) => (d, Err(stop)),
            (d, Ok(_)) => serve_run(d, bound),
        },
    }
}

/// Telling telemetry about the start, if it is on.
pub open spec fn report_run(
    d: StartTalk,
    settings: CurrentSettings,
    profile: usize,
    forced: bool,
    restored: bool,
) -> StartRun<()> {
    if !settings.telemetry_enabled {
        (d, Ok(()))
    } else {
        match request_run(d, StartRequest::ReadChip) {
            (d, Err(stop)) => (d, Err(stop)),
            (d, Ok(StartReply::Chip(chip))) => match request_run(
                d,
                StartRequest::ReportStart { profile, forced, chip, restored },
            ) {
                (d, Err(stop)) => (d, Err(stop)),
                (d, Ok(_)) => (d, Ok(())),
            },
            (d, Ok(_)) => (d, Err(Stop::Failed(StartError::Chip))),
        }
    }
}

/// Starting on a board with a profile. Settings that cannot be restored do not keep the daemon from
/// starting.
pub open spec fn board_run(
    d: StartTalk,
    args: Seq<String>,
    settings: CurrentSettings,
    bound: bool,
    profile: usize,
    forced: bool,
) -> StartRun<Launch> {
    match request_run(
        d,
        StartRequest::OpenDevice { profile, insecure: has_argument(args, "--insecure"@) },
    ) {
        (d, Err(stop)) => (d, Err(stop)),
        (d, Ok(StartReply::Done)) => if has_argument(args, "--dump-profile"@) {
            match request_run(d, StartRequest::DumpProfile) {
                (d, Err(stop)) => (d, Err(stop)),
                (d, Ok(StartReply::Done)) => (d, Ok(Launch::Dumped)),
                (d, Ok(_)) => (d, Err(Stop::Failed(StartError::Dump))),
            }
        } else {
            match request_run(d, StartRequest::Restore(settings)) {
                (d, Err(stop)) => (d, Err(stop)),
                (d, Ok(reply)) => match report_run(d, settings, profile, forced, reply is Done) {
                    (d, Err(stop)) => (d, Err(stop)),
                    (d, Ok(())) => publish_run(d, settings, bound),
                },
            }
        },
        (d, Ok(_)) => (d, Err(Stop::Failed(StartError::Device))),
    }
}

/// The board that an answer tells of.
pub open spec fn detected_in(reply: StartReply) -> Option<int> {
    match reply {
        StartReply::Board(found) => place(found),
        _ => None,
    }
}

/// The whole start.
pub open spec fn start_run(
    d: StartTalk,
    args: Seq<String>,
    profiles: Seq<BoardProfile>,
    windows: bool,
) -> StartRun<Launch> {
    match service_run(d, args, windows) {
        (d, Err(stop)) => (d, Err(stop)),
        (d, Ok(())) => match setup_run(d) {
            (d, Err(stop)) => (d, Err(stop)),
            (d, Ok((settings, bound))) => match request_run(d, StartRequest::DetectBoard) {
                (d, Err(stop)) => (d, Err(stop)),
                (d, Ok(reply)) => {
                    match chosen_profile(args, profiles, detected_in(reply)) {
                        Some((profile, forced)) => board_run(
                            d,
                            args,
                            settings,
                            bound,
                            profile as usize,
                            forced,
                        ),
                        None => unsupported_run(d, bound),
                    }
                },
            },
        },
    }
}

fn request(io: &mut StartIo, wanted: StartRequest) -> (result: Result<StartReply, Stop<StartError>>)
    ensures
        (final(io)@, result) == request_run(old(io)@, wanted),
{
    let reply = io.ask(wanted)?;
    Ok(*reply)
}

fn start_service(args: &Vec<String>, windows: bool, io: &mut StartIo) -> (result: Result<
    (),
    Stop<StartError>,
>)
    ensures
        (final(io)@, result) == service_run(old(io)@, args@, windows),
{
    if windows && argument_position(args, "--service").is_none() {
        request(io, StartRequest::WarnManual)?;
        return Ok(());
    }
    request(io, StartRequest::StartService)?;
    if windows {
        request(io, StartRequest::AwaitService)?;
        request(io, StartRequest::Sleep(SERVICE_DELAY_MS))?;
    }
    Ok(())
}

fn serve(bound: bool) -> (result: Result<Launch, Stop<StartError>>)
    ensures
        forall|d: StartTalk| #[trigger] serve_run(d, bound) == (d, result),
{
    if bound {
        Ok(Launch::Serve)
    } else {
        Err(Stop::Failed(StartError::Bind))
    }
}

fn start_unsupported(bound: bool, io: &mut StartIo) -> (result: Result<Launch, Stop<StartError>>)
    ensures
        (final(io)@, result) == unsupported_run(old(io)@, bound),
{
    let chip = match request(io, StartRequest::ProbeChip)? {
        StartReply::Chip(chip) => Some(chip),
        _ => None,
    };
    request(io, StartRequest::ReportUnsupported(chip))?;
    serve(bound)
}

fn start_board(
    args: &Vec<String>,
    settings: CurrentSettings,
    bound: bool,
    profile: usize,
    forced: bool,
    io: &mut StartIo,
) -> (result: Result<Launch, Stop<StartError>>)
    ensures
        (final(io)@, result) == board_run(old(io)@, args@, settings, bound, profile, forced),
{
    let insecure = argument_position(args, "--insecure").is_some();
    match request(io, StartRequest::OpenDevice { profile, insecure })? {
        StartReply::Done => {},
        _ => {
            return Err(Stop::Failed(StartError::Device));
        },
    }
    if argument_position(args, "--dump-profile").is_some() {
        return match request(io, StartRequest::DumpProfile)? {
            StartReply::Done => Ok(Launch::Dumped),
            _ => Err(Stop::Failed(StartError::Dump)),
        };
    }
    let restored = match request(io, StartRequest::Restore(settings))? {
        StartReply::Done => true,
        _ => false,
    };
    if settings.telemetry_enabled {
        let chip = match request(io, StartRequest::ReadChip)? {
            StartReply::Chip(chip) => chip,
            _ => {
                return Err(Stop::Failed(StartError::Chip));
            },
        };
        request(io, StartRequest::ReportStart { profile, forced, chip, restored })?;
    }
    request(io, StartRequest::Publish(settings))?;
    request(io, StartRequest::ListenToEvents)?;
    serve(bound)
}

/// Starts the daemon.
pub fn start(
    args: &Vec<String>,
    profiles: &Vec<BoardProfile>,
    windows: bool,
    io: &mut StartIo,
) -> (result: Result<Launch, Stop<StartError>>)
    ensures
        (final(io)@, result) == start_run(old(io)@, args@, profiles@, windows),
{
    start_service(args, windows, io)?;
    let settings = match request(io, StartRequest::LoadSettings)? {
        StartReply::Settings(settings) => settings,
        _ => {
            return Err(Stop::Failed(StartError::UnexpectedReply));
        },
    };
    request(
        io,
        StartRequest::InitTelemetry {
            enabled: settings.telemetry_enabled,
            client_id: settings.telemetry_client_id,
        },
    )?;
    let bound = match request(io, StartRequest::Bind)? {
        StartReply::Done => true,
        _ => false,
    };
    let detected = match request(io, StartRequest::DetectBoard)? {
        StartReply::Board(found) => found,
        _ => None,
    };
    match resolve_profile(args, profiles, detected) {
        Some((profile, forced)) => start_board(args, settings, bound, profile, forced, io),
        None => start_unsupported(bound, io),
    }
}

/// `later` goes on from `earlier` without opening a board or restoring settings.
spec fn touches_nothing(earlier: StartTalk, later: StartTalk) -> bool {
    &&& earlier.asked.len() <= later.asked.len()
    &&& later.replies == earlier.replies
    &&& forall|i: int|
        0 <= i < earlier.asked.len() ==> #[trigger] later.asked[i] == earlier.asked[i]
    &&& forall|i: int|
        earlier.asked.len() <= i < later.asked.len() ==> !(#[trigger] later.asked[i] is OpenDevice)
            && !(later.asked[i] is Restore)
}

/// Every request between `earlier` and `later` was answered.
spec fn all_answered(earlier: StartTalk, later: StartTalk) -> bool {
    later.used - earlier.used == later.asked.len() - earlier.asked.len()
}

proof fn lemma_service_touches_nothing(d: StartTalk, args: Seq<String>, windows: bool)
    ensures
        touches_nothing(d, service_run(d, args, windows).0),
        service_run(d, args, windows).1 is Ok ==> all_answered(
            d,
            service_run(d, args, windows).0,
        ),
{
}

proof fn lemma_setup_touches_nothing(d: StartTalk)
    ensures
        touches_nothing(d, setup_run(d).0),
        setup_run(d).1 is Ok ==> all_answered(d, setup_run(d).0),
{
}

proof fn lemma_unsupported_touches_nothing(d: StartTalk, bound: bool)
    ensures
        touches_nothing(d, unsupported_run(d, bound).0),
{
}

proof fn lemma_reporting_touches_nothing(
    d: StartTalk,
    settings: CurrentSettings,
    profile: usize,
    forced: bool,
    restored: bool,
)
    ensures
        touches_nothing(d, report_run(d, settings, profile, forced, restored).0),
{
}

proof fn lemma_publishing_touches_nothing(d: StartTalk, settings: CurrentSettings, bound: bool)
    ensures
        touches_nothing(d, publish_run(d, settings, bound).0),
{
}

/// What starting on a board asks: first to open it, next, if at all, to restore settings.
proof fn lemma_board_is_opened_first(
    d: StartTalk,
    args: Seq<String>,
    settings: CurrentSettings,
    bound: bool,
    profile: usize,
    forced: bool,
)
    ensures
        ({
            let run = board_run(d, args, settings, bound, profile, forced).0;
            let first = d.asked.len() as int;
            &&& first < run.asked.len()
            &&& forall|i: int| 0 <= i < first ==> #[trigger] run.asked[i] == d.asked[i]
            &&& run.asked[first] matches StartRequest::OpenDevice { profile: p, .. } && p == profile
            &&& forall|i: int|
                first < i < run.asked.len() ==> !(#[trigger] run.asked[i] is OpenDevice) && (
                run.asked[i] is Restore ==> i == first + 1)
        }),
{
    let wanted = StartRequest::OpenDevice {
        profile,
        insecure: has_argument(args, "--insecure"@),
    };
    let opened = request_run(d, wanted);
    let restored = request_run(opened.0, StartRequest::Restore(settings));
    if let Ok(reply) = restored.1 {
        let reported = report_run(restored.0, settings, profile, forced, reply is Done);
        lemma_reporting_touches_nothing(restored.0, settings, profile, forced, reply is Done);
        lemma_publishing_touches_nothing(reported.0, settings, bound);
    }
}

/// The hardware is touched only through the profile that was chosen. It is opened right after the
/// machine has told its board, and only where that board and the arguments single out a profile;
/// settings are restored only right after it was opened. So a board without a profile, neither
/// detected nor forced, is left alone.
pub proof fn law_only_the_chosen_board_is_touched(
    d: StartTalk,
    args: Seq<String>,
    profiles: Seq<BoardProfile>,
    windows: bool,
)
    ensures
        ({
            let asked = start_run(d, args, profiles, windows).0.asked;
            let first = d.asked.len() as int;
            forall|i: int| #![trigger asked[i]]
                first <= i < asked.len() ==> {
                    &&& asked[i] matches StartRequest::OpenDevice { profile, .. } ==> {
                        &&& first < i
                        &&& asked[i - 1] is DetectBoard
                        &&& chosen_profile(
                            args,
                            profiles,
                            detected_in(d.replies[d.used + (i - 1 - first)]),
                        ) matches Some((place, _)) && profile == place as usize
                    }
                    &&& asked[i] is Restore ==> first < i && asked[i - 1] is OpenDevice
                }
        }),
{
    let served = service_run(d, args, windows);
    lemma_service_touches_nothing(d, args, windows);
    if served.1 is Ok {
        let set = setup_run(served.0);
        lemma_setup_touches_nothing(served.0);
        if let Ok((settings, bound)) = set.1 {
            let found = request_run(set.0, StartRequest::DetectBoard);
            if let Ok(reply) = found.1 {
                match chosen_profile(args, profiles, detected_in(reply)) {
                    Some((profile, forced)) => {
                        lemma_board_is_opened_first(
                            found.0,
                            args,
                            settings,
                            bound,
                            profile as usize,
                            forced,
                        );
                    },
                    None => {
                        lemma_unsupported_touches_nothing(found.0, bound);
                    },
                }
            }
        }
    }
}

/// A forced profile counts alone: what the machine reports of its board changes nothing.
pub proof fn law_forced_profile_overrides_the_board(
    args: Seq<String>,
    profiles: Seq<BoardProfile>,
    one: Option<int>,
    other: Option<int>,
)
    requires
        has_argument(args, "--profile"@),
    ensures
        chosen_profile(args, profiles, one) == chosen_profile(args, profiles, other),
        chosen_profile(args, profiles, one) matches Some((_, forced)) ==> forced,
{
}

/// The place that a search among the arguments finds is the first with that word, and nothing is
/// found only where no argument reads it.
pub proof fn law_the_first_argument_counts(args: Seq<String>, word: Seq<char>, i: int)
    requires
        0 <= i <= args.len(),
    ensures
        match argument_from(args, word, i) {
            Some(at) => {
                &&& i <= at < args.len()
                &&& args[at]@ == word
                &&& forall|j: int| i <= j < at ==> (#[trigger] args[j])@ != word
            },
            None => forall|j: int| i <= j < args.len() ==> (#[trigger] args[j])@ != word,
        },
    decreases args.len() - i,
{
    if i < args.len() && args[i]@ != word {
        law_the_first_argument_counts(args, word, i + 1);
    }
}

/// The same for the profiles and their names.
pub proof fn law_the_first_profile_counts(profiles: Seq<BoardProfile>, id: Seq<char>, i: int)
    requires
        0 <= i <= profiles.len(),
    ensures
        match profile_from(profiles, id, i) {
            Some(at) => {
                &&& i <= at < profiles.len()
                &&& profiles[at].id@ == id
                &&& forall|j: int| i <= j < at ==> (#[trigger] profiles[j]).id@ != id
            },
            None => forall|j: int| i <= j < profiles.len() ==> (#[trigger] profiles[j]).id@ != id,
        },
    decreases profiles.len() - i,
{
    if i < profiles.len() && profiles[i].id@ != id {
        law_the_first_profile_counts(profiles, id, i + 1);
    }
}

/// Without an argument that forces a profile, the detected one is used and counts as not forced.
pub proof fn law_detected_profile_is_used(
    args: Seq<String>,
    profiles: Seq<BoardProfile>,
    detected: Option<int>,
)
    requires
        forall|j: int| 0 <= j < args.len() ==> (#[trigger] args[j])@ != "--profile"@,
    ensures
        detected matches Some(place) ==> chosen_profile(args, profiles, detected) == Some(
            (place, false),
        ),
        detected is None ==> chosen_profile(args, profiles, detected) is None,
{
    law_the_first_argument_counts(args, "--profile"@, 0);
}

/// The word after the first argument that forces a profile is the name of the profile that is used:
/// the first of that name, and none where there is no such word or no such profile.
pub proof fn law_forced_profile_has_the_given_name(
    args: Seq<String>,
    profiles: Seq<BoardProfile>,
    detected: Option<int>,
    at: int,
)
    requires
        0 <= at < args.len(),
        args[at]@ == "--profile"@,
        forall|j: int| 0 <= j < at ==> (#[trigger] args[j])@ != "--profile"@,
    ensures
        at + 1 == args.len() ==> chosen_profile(args, profiles, detected) is None,
        at + 1 < args.len() ==> match chosen_profile(args, profiles, detected) {
            Some((place, forced)) => {
                &&& forced
                &&& 0 <= place < profiles.len()
                &&& profiles[place].id@ == args[at + 1]@
                &&& forall|j: int|
                    0 <= j < place ==> (#[trigger] profiles[j]).id@ != args[at + 1]@
            },
            None => forall|j: int|
                0 <= j < profiles.len() ==> (#[trigger] profiles[j]).id@ != args[at + 1]@,
        },
{
    law_the_first_argument_counts(args, "--profile"@, 0);
    if at + 1 < args.len() {
        law_the_first_profile_counts(profiles, args[at + 1]@, 0);
    }
}

/// Whether one of the arguments reads `word`.
pub open spec fn given(args: Seq<String>, word: Seq<char>) -> bool {
    exists|j: int| 0 <= j < args.len() && (#[trigger] args[j])@ == word
}

/// An argument is found exactly where one of the arguments reads it.
pub proof fn law_arguments_are_found(args: Seq<String>, word: Seq<char>)
    ensures
        has_argument(args, word) <==> given(args, word),
{
    law_the_first_argument_counts(args, word, 0);
}

/// What the start asks of the service manager: on Windows the daemon waits for its set-up, but only
/// if it was started as a service, and warns otherwise; elsewhere the manager is only connected to.
/// No answer keeps the daemon from going on.
pub proof fn law_service_is_set_up_first(d: StartTalk, args: Seq<String>, windows: bool)
    requires
        0 <= d.used,
        d.used + 3 <= d.replies.len(),
    ensures
        ({
            let (end, result) = service_run(d, args, windows);
            &&& result is Ok
            &&& end.replies == d.replies
            &&& end.used - d.used == end.asked.len() - d.asked.len()
            &&& end.asked == d.asked + if !windows {
                seq![StartRequest::StartService]
            } else if given(args, "--service"@) {
                seq![
                    StartRequest::StartService,
                    StartRequest::AwaitService,
                    StartRequest::Sleep(2000),
                ]
            } else {
                seq![StartRequest::WarnManual]
            }
        }),
{
    law_arguments_are_found(args, "--service"@);
}

/// Telemetry is set up as the settings say, and that clients cannot be listened for does not yet stop
/// the start.
pub proof fn law_settings_set_telemetry_up(d: StartTalk)
    requires
        0 <= d.used,
        d.used + 3 <= d.replies.len(),
    ensures
        ({
            let (end, result) = setup_run(d);
            match d.replies[d.used] {
                StartReply::Settings(settings) => {
                    &&& result == Ok::<(CurrentSettings, bool), Stop<StartError>>(
                        (settings, d.replies[d.used + 2] == StartReply::Done),
                    )
                    &&& end.replies == d.replies
                    &&& end.used == d.used + 3
                    &&& end.asked == d.asked + seq![
                        StartRequest::LoadSettings,
                        StartRequest::InitTelemetry {
                            enabled: settings.telemetry_enabled,
                            client_id: settings.telemetry_client_id,
                        },
                        StartRequest::Bind,
                    ]
                },
                _ => {
                    &&& result == Err::<(CurrentSettings, bool), Stop<StartError>>(
                        Stop::Failed(StartError::UnexpectedReply),
                    )
                    &&& end.asked == d.asked.push(StartRequest::LoadSettings)
                },
            }
        }),
{
}

/// A board that is in use gets the settings restored, and clients the same settings, whether the
/// restoring succeeded or not. Telemetry is told of the start if it is on: with the chip, the profile,
/// and how the restoring went. What comes of listening for clients is the outcome.
pub proof fn law_a_board_in_use_serves(
    d: StartTalk,
    args: Seq<String>,
    settings: CurrentSettings,
    bound: bool,
    profile: usize,
    forced: bool,
)
    requires
        0 <= d.used,
        d.used + 6 <= d.replies.len(),
        d.replies[d.used] == StartReply::Done,
        !given(args, "--dump-profile"@),
        settings.telemetry_enabled ==> d.replies[d.used + 2] is Chip,
    ensures
        ({
            let (end, result) = board_run(d, args, settings, bound, profile, forced);
            &&& result == if bound {
                Ok::<Launch, Stop<StartError>>(Launch::Serve)
            } else {
                Err(Stop::Failed(StartError::Bind))
            }
            &&& end.asked == d.asked + seq![
                StartRequest::OpenDevice { profile, insecure: given(args, "--insecure"@) },
                StartRequest::Restore(settings),
            ] + (if settings.telemetry_enabled {
                seq![
                    StartRequest::ReadChip,
                    StartRequest::ReportStart {
                        profile,
                        forced,
                        chip: d.replies[d.used + 2]->Chip_0,
                        restored: d.replies[d.used + 1] == StartReply::Done,
                    },
                ]
            } else {
                Seq::empty()
            }) + seq![StartRequest::Publish(settings), StartRequest::ListenToEvents]
        }),
{
    law_arguments_are_found(args, "--dump-profile"@);
    law_arguments_are_found(args, "--insecure"@);
    let run = board_run(d, args, settings, bound, profile, forced);
    if settings.telemetry_enabled {
        assert(run.0.asked =~= d.asked + seq![
            StartRequest::OpenDevice { profile, insecure: given(args, "--insecure"@) },
            StartRequest::Restore(settings),
        ] + seq![
            StartRequest::ReadChip,
            StartRequest::ReportStart {
                profile,
                forced,
                chip: d.replies[d.used + 2]->Chip_0,
                restored: d.replies[d.used + 1] == StartReply::Done,
            },
        ] + seq![StartRequest::Publish(settings), StartRequest::ListenToEvents]);
    } else {
        assert(run.0.asked =~= d.asked + seq![
            StartRequest::OpenDevice { profile, insecure: given(args, "--insecure"@) },
            StartRequest::Restore(settings),
        ] + Seq::empty() + seq![StartRequest::Publish(settings), StartRequest::ListenToEvents]);
    }
}

/// Where the start on a board ends early: the device cannot be opened; the profile was only to be
/// printed, which then is the last thing asked; or telemetry is on and the chip cannot be read.
/// Nothing is published then.
pub proof fn law_a_board_may_end_the_start(
    d: StartTalk,
    args: Seq<String>,
    settings: CurrentSettings,
    bound: bool,
    profile: usize,
    forced: bool,
)
    requires
        0 <= d.used,
        d.used + 3 <= d.replies.len(),
    ensures
        ({
            let (end, result) = board_run(d, args, settings, bound, profile, forced);
            let open = StartRequest::OpenDevice {
                profile,
                insecure: given(args, "--insecure"@),
            };
            &&& d.replies[d.used] != StartReply::Done ==> {
                &&& result == Err::<Launch, Stop<StartError>>(Stop::Failed(StartError::Device))
                &&& end.asked == d.asked.push(open)
            }
            &&& d.replies[d.used] == StartReply::Done && given(args, "--dump-profile"@) ==> {
                &&& end.asked == d.asked.push(open).push(StartRequest::DumpProfile)
                &&& result == if d.replies[d.used + 1] == StartReply::Done {
                    Ok::<Launch, Stop<StartError>>(Launch::Dumped)
                } else {
                    Err(Stop::Failed(StartError::Dump))
                }
            }
            &&& d.replies[d.used] == StartReply::Done && !given(args, "--dump-profile"@)
                && settings.telemetry_enabled && !(d.replies[d.used + 2] is Chip) ==> {
                &&& end.asked == d.asked.push(open).push(StartRequest::Restore(settings)).push(
                    StartRequest::ReadChip,
                )
                &&& result == Err::<Launch, Stop<StartError>>(Stop::Failed(StartError::Chip))
            }
        }),
{
    law_arguments_are_found(args, "--dump-profile"@);
    law_arguments_are_found(args, "--insecure"@);
}

/// A board that is not supported is reported with the chip that was found on it, if one was, and
/// clients are served all the same.
pub proof fn law_an_unsupported_board_is_reported(d: StartTalk, bound: bool)
    requires
        0 <= d.used,
        d.used + 2 <= d.replies.len(),
    ensures
        ({
            let (end, result) = unsupported_run(d, bound);
            &&& end.asked.len() == d.asked.len() + 2
            &&& end.asked.take(d.asked.len() as int) == d.asked
            &&& end.asked[d.asked.len() as int] == StartRequest::ProbeChip
            &&& end.asked.last() matches StartRequest::ReportUnsupported(chip) && (
            d.replies[d.used] matches StartReply::Chip(found) ==> chip == Some(found)) && (!(
            d.replies[d.used] is Chip) ==> chip is None)
            &&& result == if bound {
                Ok::<Launch, Stop<StartError>>(Launch::Serve)
            } else {
                Err(Stop::Failed(StartError::Bind))
            }
        }),
{
    assert(unsupported_run(d, bound).0.asked.take(d.asked.len() as int) =~= d.asked);
}

/// The start in its order: the service, the settings, telemetry, the socket, and the board. The board
/// is started with the settings that were read and the profile that was chosen for it; a machine
/// without one is started as not supported.
pub proof fn law_the_start_in_its_order(
    d: StartTalk,
    args: Seq<String>,
    profiles: Seq<BoardProfile>,
    windows: bool,
    settings: CurrentSettings,
)
    requires
        0 <= d.used,
        d.used + 7 <= d.replies.len(),
        ({
            let served = d.used + if windows && given(args, "--service"@) { 3int } else { 1 };
            d.replies[served] == StartReply::Settings(settings)
        }),
    ensures
        ({
            let service: Seq<StartRequest> = if !windows {
                seq![StartRequest::StartService]
            } else if given(args, "--service"@) {
                seq![
                    StartRequest::StartService,
                    StartRequest::AwaitService,
                    StartRequest::Sleep(2000),
                ]
            } else {
                seq![StartRequest::WarnManual]
            };
            let at = d.used + service.len();
            let told = StartTalk {
                asked: d.asked + service + seq![
                    StartRequest::LoadSettings,
                    StartRequest::InitTelemetry {
                        enabled: settings.telemetry_enabled,
                        client_id: settings.telemetry_client_id,
                    },
                    StartRequest::Bind,
                    StartRequest::DetectBoard,
                ],
                replies: d.replies,
                used: at + 4,
            };
            let bound = d.replies[at + 2] == StartReply::Done;
            let board: Option<int> = match d.replies[at + 3] {
                StartReply::Board(Some(place)) => Some(place as int),
                _ => None,
            };
            start_run(d, args, profiles, windows) == match chosen_profile(args, profiles, board) {
                Some((profile, forced)) => board_run(
                    told,
                    args,
                    settings,
                    bound,
                    profile as usize,
                    forced,
                ),
                None => unsupported_run(told, bound),
            }
        }),
{
    law_service_is_set_up_first(d, args, windows);
    let served = service_run(d, args, windows).0;
    law_settings_set_telemetry_up(served);
    let set = setup_run(served).0;
    let service: Seq<StartRequest> = if !windows {
        seq![StartRequest::StartService]
    } else if given(args, "--service"@) {
        seq![StartRequest::StartService, StartRequest::AwaitService, StartRequest::Sleep(2000)]
    } else {
        seq![StartRequest::WarnManual]
    };
    assert(served.asked.len() == d.asked.len() + service.len());
    assert(set.asked.push(StartRequest::DetectBoard) =~= d.asked + service + seq![
        StartRequest::LoadSettings,
        StartRequest::InitTelemetry {
            enabled: settings.telemetry_enabled,
            client_id: settings.telemetry_client_id,
        },
        StartRequest::Bind,
        StartRequest::DetectBoard,
    ]);
}

// ---- Serving a connection ----

/// What happens on a connection.
#[derive(Clone, Copy, PartialEq, Eq, Debug, Structural)]
pub enum ConnectionEvent {
    HandshakeAccepted,
    HandshakeRejected,
    Received(IpcRequest),
    /// The client is gone.
    ReceiveReset,
    ReceiveFailed,
    Sent,
    SendFailed,
}

/// What is done next on a connection.
#[derive(Clone, Copy, PartialEq, Eq, Debug, Structural)]
pub enum ConnectionAction {
    Receive,
    /// Do the work and send the answer.
    Answer(IpcRequest),
    /// Save the settings, unless someone else holds them, and end.
    SaveAndClose,
    Close,
}

/// What follows an event on a connection.
pub open spec fn connection_action_of(event: ConnectionEvent) -> ConnectionAction {
    match event {
        ConnectionEvent::HandshakeAccepted | ConnectionEvent::Sent => ConnectionAction::Receive,
        ConnectionEvent::Received(request) => ConnectionAction::Answer(request),
        ConnectionEvent::ReceiveReset => ConnectionAction::SaveAndClose,
        ConnectionEvent::HandshakeRejected | ConnectionEvent::ReceiveFailed
        | ConnectionEvent::SendFailed => ConnectionAction::Close,
    }
}

/// What follows an event on a connection.
pub fn connection_action(event: ConnectionEvent) -> (action: ConnectionAction)
    ensures
        action == connection_action_of(event),
{
    match event {
        ConnectionEvent::HandshakeAccepted => ConnectionAction::Receive,
        ConnectionEvent::Sent => ConnectionAction::Receive,
        ConnectionEvent::Received(request) => ConnectionAction::Answer(request),
        ConnectionEvent::ReceiveReset => ConnectionAction::SaveAndClose,
        ConnectionEvent::HandshakeRejected => ConnectionAction::Close,
        ConnectionEvent::ReceiveFailed => ConnectionAction::Close,
        ConnectionEvent::SendFailed => ConnectionAction::Close,
    }
}

// ---- Reacting to the machine ----

/// What the daemon asks for when something happens to the machine.
#[derive(Clone, Copy, PartialEq, Eq, Debug, Structural)]
pub enum EventRequest {
    ApplyLed(PowerLedMode),
    /// Take the settings; the answer tells whether they could be taken.
    TakeSettings,
    /// Give the settings back.
    ReleaseSettings,
    ReadKeyboard,
    ReadPowerProfile,
    /// Tell which charge intent is in effect.
    ReadCharge,
    Save(CurrentSettings),
    /// Apply settings to the hardware.
    Restore(CurrentSettings),
    /// Bring the battery to a charge intent.
    Reconcile(ChargeIntent),
    /// Tell the state of charge.
    ReadRsoc,
    /// Tell the state of charge at which charging stops.
    ChargeStop,
    /// Light the battery LEDs: charging, charged.
    BatteryLeds(bool, bool),
}

/// The answers.
#[derive(Clone, Copy, PartialEq, Eq, Debug, Structural)]
pub enum EventReply {
    Done,
    Failed,
    Keyboard(KeyboardBacklightLevel),
    Power(PowerProfile),
    Charge(ChargeIntent),
    Percent(u8),
}

pub type EventIo = Session<EventRequest, EventReply>;

pub type EventTalk = Dialogue<EventRequest, EventReply>;

pub type EventRun<T> = (EventTalk, Result<T, Stop<()>>);

/// A request of which only the answer counts.
pub open spec fn reply_run(d: EventTalk, request: EventRequest) -> EventRun<EventReply> {
    asks::<EventRequest, EventReply, ()>(d, request)
}

/// The settings with what the hardware says in place of what they held, where it says anything.
pub open spec fn with_keyboard(settings: CurrentSettings, reply: EventReply) -> CurrentSettings {
    match reply {
        EventReply::Keyboard(level) => CurrentSettings { keyboard_backlight: level, ..settings },
        _ => settings,
    }
}

/// The same for the power profile.
pub open spec fn with_power(settings: CurrentSettings, reply: EventReply) -> CurrentSettings {
    match reply {
        EventReply::Power(profile) => CurrentSettings { power_profile: profile, ..settings },
        _ => settings,
    }
}

/// The same for the charge intent.
pub open spec fn with_charge(settings: CurrentSettings, reply: EventReply) -> CurrentSettings {
    match reply {
        EventReply::Charge(intent) => CurrentSettings { charge: intent, ..settings },
        _ => settings,
    }
}

/// The settings after the keyboard, the power profile and the charge intent have been read, in
/// this order.
pub open spec fn refresh_run(d: EventTalk, settings: CurrentSettings) -> (
    EventTalk,
    CurrentSettings,
    Result<(), Stop<()>>,
) {
    match reply_run(d, EventRequest::ReadKeyboard) {
        (d, Err(stop)) => (d, settings, Err(stop)),
        (d, Ok(keyboard)) => {
            let settings = with_keyboard(settings, keyboard);
            match reply_run(d, EventRequest::ReadPowerProfile) {
                (d, Err(stop)) => (d, settings, Err(stop)),
                (d, Ok(power)) => {
                    let settings = with_power(settings, power);
                    match reply_run(d, EventRequest::ReadCharge) {
                        (d, Err(stop)) => (d, settings, Err(stop)),
                        (d, Ok(charge)) => (d, with_charge(settings, charge), Ok(())),
                    }
                },
            }
        },
    }
}

/// Asking two requests whatever the answers.
pub open spec fn both_run(d: EventTalk, first: EventRequest, second: EventRequest) -> EventRun<()> {
    match reply_run(d, first) {
        (d, Err(stop)) => (d, Err(stop)),
        (d, Ok(_)) => match reply_run(d, second) {
            (d, Err(stop)) => (d, Err(stop)),
            (d, Ok(_)) => (d, Ok(())),
        },
    }
}

/// Reading the state of the hardware into the settings and saving them. Settings that cannot be
/// taken are left alone.
pub open spec fn keep_run(d: EventTalk, settings: CurrentSettings) -> (
    EventTalk,
    CurrentSettings,
    Result<(), Stop<()>>,
) {
    match reply_run(d, EventRequest::TakeSettings) {
        (d, Err(stop)) => (d, settings, Err(stop)),
        (d, Ok(EventReply::Done)) => match refresh_run(d, settings) {
            (d, settings, Err(stop)) => (d, settings, Err(stop)),
            (d, settings, Ok(())) => {
                let (d, result) = both_run(
                    d,
                    EventRequest::Save(settings),
                    EventRequest::ReleaseSettings,
                );
                (d, settings, result)
            },
        },
        (d, Ok(_)) => (d, settings, Ok(())),
    }
}

/// Setting the LED ring, then keeping the state.
pub open spec fn led_and_keep_run(d: EventTalk, settings: CurrentSettings, mode: PowerLedMode) -> (
    EventTalk,
    CurrentSettings,
    Result<(), Stop<()>>,
) {
    match reply_run(d, EventRequest::ApplyLed(mode)) {
        (d, Err(stop)) => (d, settings, Err(stop)),
        (d, Ok(_)) => keep_run(d, settings),
    }
}

/// The battery LEDs at a charge of `current` percent when charging stops at `stop` percent.
pub open spec fn battery_leds(current: u8, stop: u8) -> EventRequest {
    EventRequest::BatteryLeds(current < stop, current >= stop)
}

/// Lighting the battery LEDs by the state of charge, where it can be read.
pub open spec fn leds_run(d: EventTalk) -> EventRun<()> {
    match reply_run(d, EventRequest::ReadRsoc) {
        (d, Err(stop)) => (d, Err(stop)),
        (d, Ok(EventReply::Percent(current))) => match reply_run(d, EventRequest::ChargeStop) {
            (d, Err(stop)) => (d, Err(stop)),
            (d, Ok(EventReply::Percent(level))) => match reply_run(
                d,
                battery_leds(current, level),
            ) {
                (d, Err(stop)) => (d, Err(stop)),
                (d, Ok(_)) => (d, Ok(())),
            },
            (d, Ok(_)) => (d, Ok(())),
        },
        (d, Ok(_)) => (d, Ok(())),
    }
}

/// The charger has been plugged in: the desired charge intent is brought about again, after the
/// settings have been given back, and the battery LEDs are lit.
pub open spec fn charger_run(d: EventTalk, settings: CurrentSettings) -> EventRun<()> {
    match reply_run(d, EventRequest::TakeSettings) {
        (d, Err(stop)) => (d, Err(stop)),
        (d, Ok(EventReply::Done)) => match both_run(
            d,
            EventRequest::ReleaseSettings,
            EventRequest::Reconcile(settings.charge),
        ) {
            (d, Err(stop)) => (d, Err(stop)),
            (d, Ok(())) => leds_run(d),
        },
        (d, Ok(_)) => leds_run(d),
    }
}

/// The machine has woken up: the settings are applied again.
pub open spec fn wake_run(d: EventTalk, settings: CurrentSettings) -> EventRun<()> {
    match reply_run(d, EventRequest::TakeSettings) {
        (d, Err(stop)) => (d, Err(stop)),
        (d, Ok(EventReply::Done)) => both_run(
            d,
            EventRequest::Restore(settings),
            EventRequest::ReleaseSettings,
        ),
        (d, Ok(_)) => (d, Ok(())),
    }
}

/// What an event does: to the conversation and to the settings.
pub open spec fn event_run(d: EventTalk, settings: CurrentSettings, event: InternalEvent) -> (
    EventTalk,
    CurrentSettings,
    Result<(), Stop<()>>,
) {
    match event {
        InternalEvent::SystemShuttingDown | InternalEvent::SystemHibernating => led_and_keep_run(
            d,
            settings,
            PowerLedMode::Auto,
        ),
        InternalEvent::SystemSleeping => led_and_keep_run(
            d,
            settings,
            PowerLedMode::Animation(BreathConfig::Sleep),
        ),
        InternalEvent::SystemWakingUp => {
            let (d, result) = wake_run(d, settings);
            (d, settings, result)
        },
        InternalEvent::ChargerConnected => {
            let (d, result) = charger_run(d, settings);
            (d, settings, result)
        },
        InternalEvent::ChargerDisconnected => match reply_run(
            d,
            EventRequest::BatteryLeds(false, false),
        ) {
            (d, Err(stop)) => (d, settings, Err(stop)),
            (d, Ok(_)) => (d, settings, Ok(())),
        },
        InternalEvent::Inited => (d, settings, Ok(())),
    }
}

fn ask(io: &mut EventIo, request: EventRequest) -> (result: Result<EventReply, Stop<()>>)
    ensures
        (final(io)@, result) == reply_run(old(io)@, request),
{
    let reply = io.ask(request)?;
    Ok(*reply)
}

fn keep_state(io: &mut EventIo, settings: &mut CurrentSettings) -> (result: Result<(), Stop<()>>)
    ensures
        (final(io)@, *final(settings), result) == keep_run(old(io)@, *old(settings)),
{
    match ask(io, EventRequest::TakeSettings)? {
        EventReply::Done => {},
        _ => {
            return Ok(());
        },
    }
    if let EventReply::Keyboard(level) = ask(io, EventRequest::ReadKeyboard)? {
        settings.keyboard_backlight = level;
    }
    if let EventReply::Power(profile) = ask(io, EventRequest::ReadPowerProfile)? {
        settings.power_profile = profile;
    }
    if let EventReply::Charge(intent) = ask(io, EventRequest::ReadCharge)? {
        settings.charge = intent;
    }
    ask(io, EventRequest::Save(*settings))?;
    ask(io, EventRequest::ReleaseSettings)?;
    Ok(())
}

fn light_battery_leds(io: &mut EventIo) -> (result: Result<(), Stop<()>>)
    ensures
        (final(io)@, result) == leds_run(old(io)@),
{
    if let EventReply::Percent(current) = ask(io, EventRequest::ReadRsoc)? {
        if let EventReply::Percent(level) = ask(io, EventRequest::ChargeStop)? {
            ask(io, EventRequest::BatteryLeds(current < level, current >= level))?;
        }
    }
    Ok(())
}

/// Does what an event calls for.
pub fn process_service(event: InternalEvent, io: &mut EventIo, settings: &mut CurrentSettings) -> (result:
    Result<(), Stop<()>>)
    ensures
        (final(io)@, *final(settings), result) == event_run(old(io)@, *old(settings), event),
{
    match event {
        InternalEvent::SystemShuttingDown => {
            ask(io, EventRequest::ApplyLed(PowerLedMode::Auto))?;
            keep_state(io, settings)
        },
        InternalEvent::SystemHibernating => {
            ask(io, EventRequest::ApplyLed(PowerLedMode::Auto))?;
            keep_state(io, settings)
        },
        InternalEvent::SystemSleeping => {
            ask(io, EventRequest::ApplyLed(PowerLedMode::Animation(BreathConfig::Sleep)))?;
            keep_state(io, settings)
        },
        InternalEvent::SystemWakingUp => {
            match ask(io, EventRequest::TakeSettings)? {
                EventReply::Done => {
                    ask(io, EventRequest::Restore(*settings))?;
                    ask(io, EventRequest::ReleaseSettings)?;
                    Ok(())
                },
                _ => Ok(()),
            }
        },
        InternalEvent::ChargerConnected => {
            match ask(io, EventRequest::TakeSettings)? {
                EventReply::Done => {
                    let desired = settings.charge;
                    ask(io, EventRequest::ReleaseSettings)?;
                    ask(io, EventRequest::Reconcile(desired))?;
                },
                _ => {},
            }
            light_battery_leds(io)
        },
        InternalEvent::ChargerDisconnected => {
            ask(io, EventRequest::BatteryLeds(false, false))?;
            Ok(())
        },
        InternalEvent::Inited => Ok(()),
    }
}

/// The LEDs for "charging" and for "charged" are never lit together, and one of them is lit while
/// the charger is connected.
pub proof fn law_one_battery_led(current: u8, stop: u8)
    ensures
        battery_leds(current, stop) matches EventRequest::BatteryLeds(charging, charged)
            && charging != charged,
{
}

/// Whatever is saved before the machine goes down or to sleep is what the settings then are: what
/// the hardware answered, and the old value where it did not answer.
pub proof fn law_saved_settings_are_the_settings(d: EventTalk, settings: CurrentSettings)
    requires
        keep_run(d, settings).2 is Ok,
        reply_run(d, EventRequest::TakeSettings).1 == Ok::<EventReply, Stop<()>>(EventReply::Done),
    ensures
        ({
            let (end, kept, _) = keep_run(d, settings);
            &&& end.asked.len() == d.asked.len() + 6
            &&& end.asked[d.asked.len() as int + 4] == EventRequest::Save(kept)
            &&& end.asked.last() == EventRequest::ReleaseSettings
        }),
{
}

/// Only the keyboard backlight, the power profile and the charge intent are ever changed by an
/// event.
pub proof fn law_events_keep_the_other_settings(
    d: EventTalk,
    settings: CurrentSettings,
    event: InternalEvent,
)
    ensures
        ({
            let after = event_run(d, settings, event).1;
            after == (CurrentSettings {
                keyboard_backlight: after.keyboard_backlight,
                power_profile: after.power_profile,
                charge: after.charge,
                ..settings
            })
        }),
{
}

/// Keeping the state reads it from the hardware: once the settings could be taken, each of the three
/// that the hardware can tell is what it answered, and the old one where it answered something else.
/// What is saved is just that, and the settings are given back after it.
pub proof fn law_kept_settings_are_the_hardwares_answers(d: EventTalk, settings: CurrentSettings)
    requires
        0 <= d.used,
        d.used + 6 <= d.replies.len(),
        d.replies[d.used] == EventReply::Done,
    ensures
        ({
            let (end, kept, result) = keep_run(d, settings);
            &&& result is Ok
            &&& end.used == d.used + 6
            &&& d.replies[d.used + 1] matches EventReply::Keyboard(level) ==> kept.keyboard_backlight
                == level
            &&& !(d.replies[d.used + 1] is Keyboard) ==> kept.keyboard_backlight
                == settings.keyboard_backlight
            &&& d.replies[d.used + 2] matches EventReply::Power(profile) ==> kept.power_profile
                == profile
            &&& !(d.replies[d.used + 2] is Power) ==> kept.power_profile == settings.power_profile
            &&& d.replies[d.used + 3] matches EventReply::Charge(intent) ==> kept.charge == intent
            &&& !(d.replies[d.used + 3] is Charge) ==> kept.charge == settings.charge
            &&& kept.fan_mode_cpu == settings.fan_mode_cpu
            &&& kept.fan_mode_gpu == settings.fan_mode_gpu
            &&& kept.led_mode == settings.led_mode
            &&& kept.charge_limit == settings.charge_limit
            &&& kept.telemetry_enabled == settings.telemetry_enabled
            &&& kept.telemetry_client_id == settings.telemetry_client_id
            &&& end.asked == d.asked + seq![
                EventRequest::TakeSettings,
                EventRequest::ReadKeyboard,
                EventRequest::ReadPowerProfile,
                EventRequest::ReadCharge,
                EventRequest::Save(kept),
                EventRequest::ReleaseSettings,
            ]
        }),
{
}

/// Settings that cannot be taken are neither read nor saved nor changed.
pub proof fn law_settings_in_use_are_left_alone(d: EventTalk, settings: CurrentSettings)
    requires
        0 <= d.used < d.replies.len(),
        d.replies[d.used] != EventReply::Done,
    ensures
        ({
            let (end, kept, result) = keep_run(d, settings);
            &&& result is Ok
            &&& kept == settings
            &&& end.asked == d.asked.push(EventRequest::TakeSettings)
        }),
{
}

/// Before the machine goes down, hibernates or sleeps, the LED ring is set first: to its sleeping
/// pattern before sleep, and to automatic otherwise. Whether that succeeds or not, the state is kept.
pub proof fn law_going_down_keeps_the_state(
    d: EventTalk,
    settings: CurrentSettings,
    event: InternalEvent,
)
    requires
        0 <= d.used < d.replies.len(),
        event is SystemShuttingDown || event is SystemHibernating || event is SystemSleeping,
    ensures
        ({
            let mode = if event is SystemSleeping {
                PowerLedMode::Animation(BreathConfig::Sleep)
            } else {
                PowerLedMode::Auto
            };
            let lit = EventTalk {
                asked: d.asked.push(EventRequest::ApplyLed(mode)),
                replies: d.replies,
                used: d.used + 1,
            };
            event_run(d, settings, event) == keep_run(lit, settings)
        }),
{
}

/// When the charger is connected and the settings can be taken, the battery is brought to the charge
/// intent of the settings: that is asked once, with just that intent, after the settings have been
/// given back. The settings stay as they are.
pub proof fn law_charger_brings_the_intent_about(d: EventTalk, settings: CurrentSettings)
    requires
        0 <= d.used,
        d.used + 2 <= d.replies.len(),
        d.replies[d.used] == EventReply::Done,
    ensures
        ({
            let (end, kept, _) = event_run(d, settings, InternalEvent::ChargerConnected);
            let first = d.asked.len() as int;
            &&& kept == settings
            &&& end.asked.len() >= first + 3
            &&& end.asked.take(first) == d.asked
            &&& end.asked[first] == EventRequest::TakeSettings
            &&& end.asked[first + 1] == EventRequest::ReleaseSettings
            &&& end.asked[first + 2] == EventRequest::Reconcile(settings.charge)
            &&& forall|i: int|
                first <= i < end.asked.len() && #[trigger] end.asked[i] is Reconcile ==> i == first
                    + 2
        }),
{
    let end = event_run(d, settings, InternalEvent::ChargerConnected).0;
    assert(end.asked.take(d.asked.len() as int) =~= d.asked);
}

/// Where the settings cannot be taken, no charge intent is brought about.
pub proof fn law_no_intent_without_the_settings(d: EventTalk, settings: CurrentSettings)
    requires
        0 <= d.used < d.replies.len(),
        d.replies[d.used] != EventReply::Done,
    ensures
        ({
            let (end, kept, _) = event_run(d, settings, InternalEvent::ChargerConnected);
            &&& kept == settings
            &&& forall|i: int|
                d.asked.len() <= i < end.asked.len() ==> !(#[trigger] end.asked[i] is Reconcile)
                    && !(end.asked[i] is ReleaseSettings)
        }),
{
}

/// With the charger connected the battery LEDs show the state of charge against the level at which
/// charging stops: below it the one for "charging" is lit, from it on the one for "charged". Where
/// one of the two levels cannot be told, the LEDs are left alone. They come last in any case.
pub proof fn law_leds_compare_charge_and_stop(d: EventTalk, settings: CurrentSettings)
    requires
        0 <= d.used,
        d.used + 6 <= d.replies.len(),
    ensures
        ({
            let (end, kept, result) = event_run(d, settings, InternalEvent::ChargerConnected);
            let taken = d.replies[d.used] == EventReply::Done;
            let before: Seq<EventRequest> = if taken {
                seq![
                    EventRequest::TakeSettings,
                    EventRequest::ReleaseSettings,
                    EventRequest::Reconcile(settings.charge),
                ]
            } else {
                seq![EventRequest::TakeSettings]
            };
            let at = d.used + before.len();
            &&& result is Ok
            &&& match (d.replies[at], d.replies[at + 1]) {
                (EventReply::Percent(current), EventReply::Percent(stop)) => {
                    &&& current < stop ==> end.asked == d.asked + before + seq![
                        EventRequest::ReadRsoc,
                        EventRequest::ChargeStop,
                        EventRequest::BatteryLeds(true, false),
                    ]
                    &&& current >= stop ==> end.asked == d.asked + before + seq![
                        EventRequest::ReadRsoc,
                        EventRequest::ChargeStop,
                        EventRequest::BatteryLeds(false, true),
                    ]
                },
                (EventReply::Percent(_), _) => end.asked == d.asked + before + seq![
                    EventRequest::ReadRsoc,
                    EventRequest::ChargeStop,
                ],
                _ => end.asked == d.asked + before + seq![EventRequest::ReadRsoc],
            }
        }),
{
}

/// A machine that wakes up gets the settings applied again, as they are, if they can be taken, and
/// they are given back after it.
pub proof fn law_waking_restores_the_settings(d: EventTalk, settings: CurrentSettings)
    requires
        0 <= d.used,
        d.used + 3 <= d.replies.len(),
    ensures
        ({
            let (end, kept, result) = event_run(d, settings, InternalEvent::SystemWakingUp);
            &&& result is Ok
            &&& kept == settings
            &&& end.asked == d.asked + if d.replies[d.used] == EventReply::Done {
                seq![
                    EventRequest::TakeSettings,
                    EventRequest::Restore(settings),
                    EventRequest::ReleaseSettings,
                ]
            } else {
                seq![EventRequest::TakeSettings]
            }
        }),
{
}

/// Without the charger neither battery LED is lit; nothing else is done. The end of the set-up calls
/// for nothing.
pub proof fn law_unplugging_puts_the_leds_out(d: EventTalk, settings: CurrentSettings)
    ensures
        ({
            let (end, kept, _) = event_run(d, settings, InternalEvent::ChargerDisconnected);
            &&& kept == settings
            &&& end.asked == d.asked.push(EventRequest::BatteryLeds(false, false))
        }),
        event_run(d, settings, InternalEvent::Inited).0 == d,
        event_run(d, settings, InternalEvent::Inited).1 == settings,
        event_run(d, settings, InternalEvent::Inited).2 is Ok,
        d.used < d.replies.len() ==> event_run(d, settings, InternalEvent::ChargerDisconnected).2
            is Ok,
{
}

/// What follows an event on a connection: a request is answered, just that one; after the handshake
/// and after an answer the next request is received; a client that is gone has the settings saved; and
/// every failure closes the connection.
pub proof fn law_a_connection_goes_on(event: ConnectionEvent, request: IpcRequest)
    ensures
        event == ConnectionEvent::Received(request) <==> connection_action_of(event)
            == ConnectionAction::Answer(request),
        event is HandshakeAccepted || event is Sent <==> connection_action_of(event) is Receive,
        event is ReceiveReset <==> connection_action_of(event) is SaveAndClose,
        event is HandshakeRejected || event is ReceiveFailed || event is SendFailed
            <==> connection_action_of(event) is Close,
{
}

/// The name of a chip with its version: `IT`, its two bytes, a dash and the version, in base sixteen.
/// Each byte can be read back.
pub proof fn law_a_chip_label_tells_the_chip(id1: u8, id2: u8, ver: u8)
    ensures
        chip_text(id1, id2, ver).len() == 9,
        chip_text(id1, id2, ver)[0] == 'I',
        chip_text(id1, id2, ver)[1] == 'T',
        chip_text(id1, id2, ver)[6] == '-',
        hex_byte(chip_text(id1, id2, ver).subrange(2, 4)) == Some(id1),
        hex_byte(chip_text(id1, id2, ver).subrange(4, 6)) == Some(id2),
        hex_byte(chip_text(id1, id2, ver).subrange(7, 9)) == Some(ver),
{
    reveal_strlit("IT");
    reveal_strlit("-");
    reveal_with_fuel(hex, 3);
    lemma_hex_byte_round_trip(id1);
    lemma_hex_byte_round_trip(id2);
    lemma_hex_byte_round_trip(ver);
    let text = chip_text(id1, id2, ver);
    assert(text.subrange(2, 4) =~= hex(id1 as nat, 2));
    assert(text.subrange(4, 6) =~= hex(id2 as nat, 2));
    assert(text.subrange(7, 9) =~= hex(ver as nat, 2));
}

/// Clients and telemetry are told the same about an unsupported board: the same chip, or of none where
/// none was found.
pub proof fn law_unsupported_boards_are_told_alike(
    reports: (UnsupportedInfo, TelemetryData),
    board: String,
    host: String,
    chip: Option<(u8, u8, u8)>,
)
    requires
        tell_unsupported(reports, board, host, chip),
    ensures
        reports.0.board == board,
        reports.0.chip is Some <==> chip is Some,
        chip matches Some((id1, id2, ver)) ==> reports.0.chip->Some_0@ == chip_text(id1, id2, ver),
        reports.1 matches TelemetryData::Unsupported { host: from, chip: told } && {
            &&& from == host
            &&& told is Some <==> chip is Some
            &&& told matches Some(label) ==> label@ == reports.0.chip->Some_0@
        },
{
}

/// Telemetry that is off is told nothing of a start; telemetry that is on is told everything that is
/// known of it, and the start fails where the chip cannot be read.
pub proof fn law_a_start_is_told_in_full(
    report: Result<Option<TelemetryData>, EcError>,
    settings: CurrentSettings,
    chip: Result<(u8, u8, u8), EcError>,
    host: String,
    profile: String,
    forced_profile: bool,
    hram_offset: u16,
    caps: Capabilities,
    restore_error: Option<String>,
)
    requires
        tells_start(
            report,
            settings,
            chip,
            host,
            profile,
            forced_profile,
            hram_offset,
            caps,
            restore_error,
        ),
    ensures
        !settings.telemetry_enabled ==> (report matches Ok(told) && told is None),
        settings.telemetry_enabled ==> {
            &&& report is Err <==> chip is Err
            &&& chip matches Err(error) ==> report->Err_0 == error
            &&& chip matches Ok((id1, id2, ver)) ==> (report matches Ok(
                Some(
                    TelemetryData::Startup {
                        host: from,
                        profile: id,
                        forced_profile: forced,
                        firmware,
                        hram_offset: offset,
                        caps: abilities,
                        restore_error: failure,
                    },
                ),
            ) && from == host && id == profile && forced == forced_profile && firmware@ == chip_text(
                id1,
                id2,
                ver,
            ) && offset == hram_offset && *abilities == caps && failure == restore_error)
        },
{
}

} // verus!
