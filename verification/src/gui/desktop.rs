//! Preferences that Windows keeps for the control centre: starting with the session, and staying in
//! the notification area.
use vstd::prelude::*;

use super::tray::{command_text, startup_command};
use crate::session::{asks, Dialogue, Session, Stop};
use crate::text::joined;

verus! {

/// What is asked of the registry and of the system.
#[derive(PartialEq, Eq, Debug)]
pub enum RegistryRequest {
    /// Open the key of the programs that start with the session.
    OpenRun,
    /// The same, for writing.
    OpenRunForWriting,
    /// The same, and make it if it is missing.
    CreateRun,
    /// Tell whether the control centre has an entry there.
    ReadStartup,
    /// Set its entry.
    WriteStartup(String),
    /// Remove its entry.
    DeleteStartup,
    /// Tell the path of the running program.
    ProgramPath,
    /// Open the key of the control centre's own preferences.
    OpenPreferences,
    /// The same, and make it if it is missing.
    CreatePreferences,
    /// Tell whether the window stays in the notification area, as a number.
    ReadMinimize,
    /// Set that number.
    WriteMinimize(u32),
}

/// The answers.
#[derive(PartialEq, Eq, Debug)]
pub enum RegistryReply {
    Done,
    Path(String),
    Number(u32),
    /// There is no such key or value; with the system's message.
    NotFound(String),
    /// Any other failure, with the system's message.
    Fault(String),
}

/// What could not be done, with the system's message.
#[derive(PartialEq, Eq, Debug)]
pub enum DesktopError {
    ReadStartup(String),
    OpenStartup(String),
    ProgramPath(String),
    WriteStartup(String),
    RemoveStartup(String),
    OpenPreferences(String),
    SavePreferences(String),
    /// The answer does not fit the request.
    UnexpectedReply,
}

pub type DesktopIo = Session<RegistryRequest, RegistryReply>;

pub type DesktopTalk = Dialogue<RegistryRequest, RegistryReply>;

pub type DesktopRun<T> = (DesktopTalk, Result<T, Stop<DesktopError>>);

/// One request.
pub open spec fn registry_run(d: DesktopTalk, request: RegistryRequest) -> DesktopRun<
    RegistryReply,
> {
    asks::<RegistryRequest, RegistryReply, DesktopError>(d, request)
}

/// The message of a failure.
pub open spec fn failure(reply: RegistryReply) -> Option<String> {
    match reply {
        RegistryReply::NotFound(message) => Some(message),
        RegistryReply::Fault(message) => Some(message),
        _ => None,
    }
}

/// Telling whether the control centre starts with the session: whether it has an entry among the
/// programs that do.
pub open spec fn startup_run(d: DesktopTalk) -> DesktopRun<bool> {
    match registry_run(d, RegistryRequest::OpenRun) {
        (d, Err(stop)) => (d, Err(stop)),
        (d, Ok(RegistryReply::NotFound(_))) => (d, Ok(false)),
        (d, Ok(RegistryReply::Fault(message))) => (
            d,
            Err(Stop::Failed(DesktopError::ReadStartup(message))),
        ),
        (d, Ok(RegistryReply::Done)) => match registry_run(d, RegistryRequest::ReadStartup) {
            (d, Err(stop)) => (d, Err(stop)),
            (d, Ok(RegistryReply::Done)) => (d, Ok(true)),
            (d, Ok(RegistryReply::NotFound(_))) => (d, Ok(false)),
            (d, Ok(RegistryReply::Fault(message))) => (
                d,
                Err(Stop::Failed(DesktopError::ReadStartup(message))),
            ),
            (d, Ok(_)) => (d, Err(Stop::Failed(DesktopError::UnexpectedReply))),
        },
        (d, Ok(_)) => (d, Err(Stop::Failed(DesktopError::UnexpectedReply))),
    }
}

/// Finding the path of the program, once the key is there.
pub open spec fn program_run(d: DesktopTalk) -> DesktopRun<String> {
    match registry_run(d, RegistryRequest::CreateRun) {
        (d, Err(stop)) => (d, Err(stop)),
        (d, Ok(RegistryReply::Done)) => match registry_run(d, RegistryRequest::ProgramPath) {
            (d, Err(stop)) => (d, Err(stop)),
            (d, Ok(RegistryReply::Path(path))) => (d, Ok(path)),
            (d, Ok(reply)) => match failure(reply) {
                Some(message) => (d, Err(Stop::Failed(DesktopError::ProgramPath(message)))),
                None => (d, Err(Stop::Failed(DesktopError::UnexpectedReply))),
            },
        },
        (d, Ok(reply)) => match failure(reply) {
            Some(message) => (d, Err(Stop::Failed(DesktopError::OpenStartup(message)))),
            None => (d, Err(Stop::Failed(DesktopError::UnexpectedReply))),
        },
    }
}

/// Setting the entry, once the path of the program is known.
pub open spec fn entry_run(d: DesktopTalk, command: String) -> DesktopRun<()> {
    match registry_run(d, RegistryRequest::WriteStartup(command)) {
        (d, Err(stop)) => (d, Err(stop)),
        (d, Ok(RegistryReply::Done)) => (d, Ok(())),
        (d, Ok(reply)) => match failure(reply) {
            Some(message) => (d, Err(Stop::Failed(DesktopError::WriteStartup(message)))),
            None => (d, Err(Stop::Failed(DesktopError::UnexpectedReply))),
        },
    }
}

/// `command` is the command that starts the program whose path the conversation tells, if it tells
/// one.
pub open spec fn starts_the_program(d: DesktopTalk, command: String) -> bool {
    program_run(d).1 matches Ok(path) ==> command@ == command_text(path@)
}

/// Making the control centre start with the session, by `command`.
pub open spec fn enabling_run(d: DesktopTalk, command: String) -> DesktopRun<()> {
    match program_run(d) {
        (d, Err(stop)) => (d, Err(stop)),
        (d, Ok(_)) => entry_run(d, command),
    }
}

/// Removing the entry; one that is not there need not be removed.
pub open spec fn removal_run(d: DesktopTalk) -> DesktopRun<()> {
    match registry_run(d, RegistryRequest::OpenRunForWriting) {
        (d, Err(stop)) => (d, Err(stop)),
        (d, Ok(RegistryReply::NotFound(_))) => (d, Ok(())),
        (d, Ok(RegistryReply::Fault(message))) => (
            d,
            Err(Stop::Failed(DesktopError::OpenStartup(message))),
        ),
        (d, Ok(RegistryReply::Done)) => match registry_run(d, RegistryRequest::DeleteStartup) {
            (d, Err(stop)) => (d, Err(stop)),
            (d, Ok(RegistryReply::Done)) => (d, Ok(())),
            (d, Ok(RegistryReply::NotFound(_))) => (d, Ok(())),
            (d, Ok(RegistryReply::Fault(message))) => (
                d,
                Err(Stop::Failed(DesktopError::RemoveStartup(message))),
            ),
            (d, Ok(_)) => (d, Err(Stop::Failed(DesktopError::UnexpectedReply))),
        },
        (d, Ok(_)) => (d, Err(Stop::Failed(DesktopError::UnexpectedReply))),
    }
}

/// Telling whether the window stays in the notification area: whether the preference can be read
/// and is not zero.
pub open spec fn minimize_run(d: DesktopTalk) -> DesktopRun<bool> {
    match registry_run(d, RegistryRequest::OpenPreferences) {
        (d, Err(stop)) => (d, Err(stop)),
        (d, Ok(RegistryReply::Done)) => match registry_run(d, RegistryRequest::ReadMinimize) {
            (d, Err(stop)) => (d, Err(stop)),
            (d, Ok(RegistryReply::Number(number))) => (d, Ok(number != 0)),
            (d, Ok(_)) => (d, Ok(false)),
        },
        (d, Ok(_)) => (d, Ok(false)),
    }
}

/// Setting whether the window stays in the notification area.
pub open spec fn set_minimize_run(d: DesktopTalk, enabled: bool) -> DesktopRun<()> {
    match registry_run(d, RegistryRequest::CreatePreferences) {
        (d, Err(stop)) => (d, Err(stop)),
        (d, Ok(RegistryReply::Done)) => match registry_run(
            d,
            RegistryRequest::WriteMinimize(
                if enabled {
                    1
                } else {
                    0
                },
            ),
        ) {
            (d, Err(stop)) => (d, Err(stop)),
            (d, Ok(RegistryReply::Done)) => (d, Ok(())),
            (d, Ok(reply)) => match failure(reply) {
                Some(message) => (d, Err(Stop::Failed(DesktopError::SavePreferences(message)))),
                None => (d, Err(Stop::Failed(DesktopError::UnexpectedReply))),
            },
        },
        (d, Ok(reply)) => match failure(reply) {
            Some(message) => (d, Err(Stop::Failed(DesktopError::OpenPreferences(message)))),
            None => (d, Err(Stop::Failed(DesktopError::UnexpectedReply))),
        },
    }
}

/// Tells whether the control centre starts with the session.
pub fn startup_enabled(io: &mut DesktopIo) -> (result: Result<bool, Stop<DesktopError>>)
    ensures
        (final(io)@, result) == startup_run(old(io)@),
{
    match io.ask(RegistryRequest::OpenRun)? {
        RegistryReply::Done => {},
        RegistryReply::NotFound(_) => {
            return Ok(false);
        },
        RegistryReply::Fault(message) => {
            return Err(Stop::Failed(DesktopError::ReadStartup(message.clone())));
        },
        _ => {
            return Err(Stop::Failed(DesktopError::UnexpectedReply));
        },
    }
    match io.ask(RegistryRequest::ReadStartup)? {
        RegistryReply::Done => Ok(true),
        RegistryReply::NotFound(_) => Ok(false),
        RegistryReply::Fault(message) => Err(
            Stop::Failed(DesktopError::ReadStartup(message.clone())),
        ),
        _ => Err(Stop::Failed(DesktopError::UnexpectedReply)),
    }
}

/// Makes the control centre start with the session, minimized, or not.
pub fn set_startup_enabled(enabled: bool, io: &mut DesktopIo) -> (result: Result<
    (),
    Stop<DesktopError>,
>)
    ensures
        if !enabled {
            (final(io)@, result) == removal_run(old(io)@)
        } else {
            exists|command: String| #[trigger]
                starts_the_program(old(io)@, command) && (final(io)@, result) == enabling_run(
                    old(io)@,
                    command,
                )
        },
{
    if !enabled {
        return remove_startup(io);
    }
    proof {
        if program_run(io@).1 is Err {
            assert(starts_the_program(io@, arbitrary::<String>()));
        }
    }
    match io.ask(RegistryRequest::CreateRun)? {
        RegistryReply::Done => {},
        RegistryReply::NotFound(message) => {
            return Err(Stop::Failed(DesktopError::OpenStartup(message.clone())));
        },
        RegistryReply::Fault(message) => {
            return Err(Stop::Failed(DesktopError::OpenStartup(message.clone())));
        },
        _ => {
            return Err(Stop::Failed(DesktopError::UnexpectedReply));
        },
    }
    let command = match io.ask(RegistryRequest::ProgramPath)? {
        RegistryReply::Path(path) => startup_command(path.as_str()),
        RegistryReply::NotFound(message) => {
            return Err(Stop::Failed(DesktopError::ProgramPath(message.clone())));
        },
        RegistryReply::Fault(message) => {
            return Err(Stop::Failed(DesktopError::ProgramPath(message.clone())));
        },
        _ => {
            return Err(Stop::Failed(DesktopError::UnexpectedReply));
        },
    };
    proof {
        assert(starts_the_program(old(io)@, command));
    }
    match io.ask(RegistryRequest::WriteStartup(command))? {
        RegistryReply::Done => Ok(()),
        RegistryReply::NotFound(message) => Err(
            Stop::Failed(DesktopError::WriteStartup(message.clone())),
        ),
        RegistryReply::Fault(message) => Err(
            Stop::Failed(DesktopError::WriteStartup(message.clone())),
        ),
        _ => Err(Stop::Failed(DesktopError::UnexpectedReply)),
    }
}

fn remove_startup(io: &mut DesktopIo) -> (result: Result<(), Stop<DesktopError>>)
    ensures
        (final(io)@, result) == removal_run(old(io)@),
{
    match io.ask(RegistryRequest::OpenRunForWriting)? {
        RegistryReply::Done => {},
        RegistryReply::NotFound(_) => {
            return Ok(());
        },
        RegistryReply::Fault(message) => {
            return Err(Stop::Failed(DesktopError::OpenStartup(message.clone())));
        },
        _ => {
            return Err(Stop::Failed(DesktopError::UnexpectedReply));
        },
    }
    match io.ask(RegistryRequest::DeleteStartup)? {
        RegistryReply::Done => Ok(()),
        RegistryReply::NotFound(_) => Ok(()),
        RegistryReply::Fault(message) => Err(
            Stop::Failed(DesktopError::RemoveStartup(message.clone())),
        ),
        _ => Err(Stop::Failed(DesktopError::UnexpectedReply)),
    }
}

/// Tells whether the window stays in the notification area.
pub fn minimize_to_tray_enabled(io: &mut DesktopIo) -> (result: Result<bool, Stop<DesktopError>>)
    ensures
        (final(io)@, result) == minimize_run(old(io)@),
{
    match io.ask(RegistryRequest::OpenPreferences)? {
        RegistryReply::Done => {},
        _ => {
            return Ok(false);
        },
    }
    match io.ask(RegistryRequest::ReadMinimize)? {
        RegistryReply::Number(number) => Ok(*number != 0),
        _ => Ok(false),
    }
}

/// Makes the window stay in the notification area, or not.
pub fn set_minimize_to_tray_enabled(enabled: bool, io: &mut DesktopIo) -> (result: Result<
    (),
    Stop<DesktopError>,
>)
    ensures
        (final(io)@, result) == set_minimize_run(old(io)@, enabled),
{
    match io.ask(RegistryRequest::CreatePreferences)? {
        RegistryReply::Done => {},
        RegistryReply::NotFound(message) => {
            return Err(Stop::Failed(DesktopError::OpenPreferences(message.clone())));
        },
        RegistryReply::Fault(message) => {
            return Err(Stop::Failed(DesktopError::OpenPreferences(message.clone())));
        },
        _ => {
            return Err(Stop::Failed(DesktopError::UnexpectedReply));
        },
    }
    let number: u32 = if enabled {
        1
    } else {
        0
    };
    match io.ask(RegistryRequest::WriteMinimize(number))? {
        RegistryReply::Done => Ok(()),
        RegistryReply::NotFound(message) => Err(
            Stop::Failed(DesktopError::SavePreferences(message.clone())),
        ),
        RegistryReply::Fault(message) => Err(
            Stop::Failed(DesktopError::SavePreferences(message.clone())),
        ),
        _ => Err(Stop::Failed(DesktopError::UnexpectedReply)),
    }
}

/// An error in words.
pub open spec fn desktop_error_text(error: DesktopError) -> Seq<char> {
    match error {
        DesktopError::ReadStartup(message) => "读取 Windows 启动项失败："@ + message@,
        DesktopError::OpenStartup(message) => "打开 Windows 启动项失败："@ + message@,
        DesktopError::ProgramPath(message) => "无法确定当前程序路径："@ + message@,
        DesktopError::WriteStartup(message) => "写入 Windows 启动项失败："@ + message@,
        DesktopError::RemoveStartup(message) => "移除 Windows 启动项失败："@ + message@,
        DesktopError::OpenPreferences(message) => "打开应用偏好设置失败："@ + message@,
        DesktopError::SavePreferences(message) => "保存通知区域偏好失败："@ + message@,
        DesktopError::UnexpectedReply => "unexpected reply"@,
    }
}

impl DesktopError {
    /// The error in words.
    pub fn message(&self) -> (text: String)
        ensures
            text@ == desktop_error_text(*self),
    {
        match self {
            DesktopError::ReadStartup(cause) => joined("读取 Windows 启动项失败：", cause.as_str()),
            DesktopError::OpenStartup(cause) => joined("打开 Windows 启动项失败：", cause.as_str()),
            DesktopError::ProgramPath(cause) => joined("无法确定当前程序路径：", cause.as_str()),
            DesktopError::WriteStartup(cause) => joined("写入 Windows 启动项失败：", cause.as_str()),
            DesktopError::RemoveStartup(cause) => joined("移除 Windows 启动项失败：", cause.as_str()),
            DesktopError::OpenPreferences(cause) => joined("打开应用偏好设置失败：", cause.as_str()),
            DesktopError::SavePreferences(cause) => joined("保存通知区域偏好失败：", cause.as_str()),
            DesktopError::UnexpectedReply => "unexpected reply".to_owned(),
        }
    }
}

/// Whether a request changes the registry.
pub open spec fn changes(request: RegistryRequest) -> bool {
    request is CreateRun || request is WriteStartup || request is DeleteStartup
        || request is CreatePreferences || request is WriteMinimize
}

/// Telling the preferences changes nothing.
pub proof fn law_telling_changes_nothing(d: DesktopTalk)
    ensures
        forall|i: int|
            d.asked.len() <= i < startup_run(d).0.asked.len() ==> !changes(
                #[trigger] startup_run(d).0.asked[i],
            ),
        forall|i: int|
            d.asked.len() <= i < minimize_run(d).0.asked.len() ==> !changes(
                #[trigger] minimize_run(d).0.asked[i],
            ),
{
}

// ---- The conversations in their order ----

/// The control centre starts with the session exactly if it has an entry: a key or an entry that is
/// missing means that it does not, and any other failure is reported.
pub proof fn law_startup_is_told_by_the_entry(d: DesktopTalk)
    requires
        0 <= d.used,
        d.used + 2 <= d.replies.len(),
    ensures
        ({
            let (end, result) = startup_run(d);
            let opened = d.asked.push(RegistryRequest::OpenRun);
            match d.replies[d.used] {
                RegistryReply::NotFound(_) => result == Ok::<bool, Stop<DesktopError>>(false)
                    && end.asked == opened,
                RegistryReply::Fault(message) => result == Err::<bool, Stop<DesktopError>>(
                    Stop::Failed(DesktopError::ReadStartup(message)),
                ) && end.asked == opened,
                RegistryReply::Done => end.asked == opened.push(RegistryRequest::ReadStartup)
                    && match d.replies[d.used + 1] {
                    RegistryReply::Done => result == Ok::<bool, Stop<DesktopError>>(true),
                    RegistryReply::NotFound(_) => result == Ok::<bool, Stop<DesktopError>>(false),
                    RegistryReply::Fault(message) => result == Err::<bool, Stop<DesktopError>>(
                        Stop::Failed(DesktopError::ReadStartup(message)),
                    ),
                    _ => result is Err,
                },
                _ => result is Err,
            }
        }),
{
}

/// Making the control centre start with the session: the key is made, the path is asked for, and the
/// entry is the command that starts that path, minimized.
pub proof fn law_the_entry_starts_the_program(d: DesktopTalk, path: String, command: String)
    requires
        0 <= d.used,
        d.used + 3 <= d.replies.len(),
        d.replies[d.used] == RegistryReply::Done,
        d.replies[d.used + 1] == RegistryReply::Path(path),
        starts_the_program(d, command),
    ensures
        command@ == "\""@ + path@ + "\" --minimized"@,
        enabling_run(d, command).0.asked == d.asked + seq![
            RegistryRequest::CreateRun,
            RegistryRequest::ProgramPath,
            RegistryRequest::WriteStartup(command),
        ],
        match d.replies[d.used + 2] {
            RegistryReply::Done => enabling_run(d, command).1 is Ok,
            RegistryReply::NotFound(message) => enabling_run(d, command).1 == Err::<
                (),
                Stop<DesktopError>,
            >(Stop::Failed(DesktopError::WriteStartup(message))),
            RegistryReply::Fault(message) => enabling_run(d, command).1 == Err::<
                (),
                Stop<DesktopError>,
            >(Stop::Failed(DesktopError::WriteStartup(message))),
            _ => enabling_run(d, command).1 is Err,
        },
{
}

/// Without the key or the path there is no entry, and the failure says which of them was missing.
pub proof fn law_no_entry_without_a_path(d: DesktopTalk, command: String, message: String)
    requires
        0 <= d.used,
        d.used + 2 <= d.replies.len(),
    ensures
        d.replies[d.used] == RegistryReply::Fault(message) || d.replies[d.used]
            == RegistryReply::NotFound(message) ==> enabling_run(d, command).1 == Err::<
            (),
            Stop<DesktopError>,
        >(Stop::Failed(DesktopError::OpenStartup(message))) && enabling_run(d, command).0.asked
            == d.asked.push(RegistryRequest::CreateRun),
        d.replies[d.used] == RegistryReply::Done && (d.replies[d.used + 1] == RegistryReply::Fault(
            message,
        ) || d.replies[d.used + 1] == RegistryReply::NotFound(message)) ==> enabling_run(
            d,
            command,
        ).1 == Err::<(), Stop<DesktopError>>(Stop::Failed(DesktopError::ProgramPath(message)))
            && enabling_run(d, command).0.asked == d.asked.push(RegistryRequest::CreateRun).push(
            RegistryRequest::ProgramPath,
        ),
{
}

/// Removing the entry: an entry that is there is deleted, and one that is not there is no failure.
pub proof fn law_removing_the_entry(d: DesktopTalk)
    requires
        0 <= d.used,
        d.used + 2 <= d.replies.len(),
    ensures
        ({
            let (end, result) = removal_run(d);
            let opened = d.asked.push(RegistryRequest::OpenRunForWriting);
            match d.replies[d.used] {
                RegistryReply::NotFound(_) => result is Ok && end.asked == opened,
                RegistryReply::Fault(message) => result == Err::<(), Stop<DesktopError>>(
                    Stop::Failed(DesktopError::OpenStartup(message)),
                ) && end.asked == opened,
                RegistryReply::Done => end.asked == opened.push(RegistryRequest::DeleteStartup)
                    && match d.replies[d.used + 1] {
                    RegistryReply::Done => result is Ok,
                    RegistryReply::NotFound(_) => result is Ok,
                    RegistryReply::Fault(message) => result == Err::<(), Stop<DesktopError>>(
                        Stop::Failed(DesktopError::RemoveStartup(message)),
                    ),
                    _ => result is Err,
                },
                _ => result is Err,
            }
        }),
{
}

/// A preference that was written is read back: on a registry that keeps its number, the window stays in
/// the notification area exactly if that was set.
pub proof fn law_the_minimize_preference_round_trip(d: DesktopTalk, e: DesktopTalk, enabled: bool)
    requires
        0 <= d.used,
        d.used + 2 <= d.replies.len(),
        d.replies[d.used] == RegistryReply::Done,
        d.replies[d.used + 1] == RegistryReply::Done,
        0 <= e.used,
        e.used + 2 <= e.replies.len(),
        e.replies[e.used] == RegistryReply::Done,
        set_minimize_run(d, enabled).0.asked.last() matches RegistryRequest::WriteMinimize(number)
            && e.replies[e.used + 1] == RegistryReply::Number(number),
    ensures
        set_minimize_run(d, enabled).1 is Ok,
        set_minimize_run(d, enabled).0.asked == d.asked.push(RegistryRequest::CreatePreferences).push(
            RegistryRequest::WriteMinimize(
                if enabled {
                    1
                } else {
                    0
                },
            ),
        ),
        minimize_run(e).1 == Ok::<bool, Stop<DesktopError>>(enabled),
        minimize_run(e).0.asked == e.asked.push(RegistryRequest::OpenPreferences).push(
            RegistryRequest::ReadMinimize,
        ),
{
}

/// A preference that cannot be read counts as off; one that can is on exactly if it is not zero.
pub proof fn law_an_unreadable_preference_is_off(d: DesktopTalk)
    requires
        0 <= d.used,
        d.used + 2 <= d.replies.len(),
    ensures
        d.replies[d.used] != RegistryReply::Done ==> minimize_run(d).1 == Ok::<
            bool,
            Stop<DesktopError>,
        >(false),
        d.replies[d.used] == RegistryReply::Done ==> minimize_run(d).1 == Ok::<
            bool,
            Stop<DesktopError>,
        >(d.replies[d.used + 1] matches RegistryReply::Number(number) && number != 0),
{
}

/// A preference that cannot be written says whether the key or the value was the reason.
pub proof fn law_unwritten_preferences(d: DesktopTalk, enabled: bool, message: String)
    requires
        0 <= d.used,
        d.used + 2 <= d.replies.len(),
    ensures
        d.replies[d.used] == RegistryReply::Fault(message) || d.replies[d.used]
            == RegistryReply::NotFound(message) ==> set_minimize_run(d, enabled).1 == Err::<
            (),
            Stop<DesktopError>,
        >(Stop::Failed(DesktopError::OpenPreferences(message))),
        d.replies[d.used] == RegistryReply::Done && (d.replies[d.used + 1] == RegistryReply::Fault(
            message,
        ) || d.replies[d.used + 1] == RegistryReply::NotFound(message)) ==> set_minimize_run(
            d,
            enabled,
        ).1 == Err::<(), Stop<DesktopError>>(Stop::Failed(DesktopError::SavePreferences(message))),
{
}

/// The errors in words: what could not be done, and the system's message.
pub proof fn law_desktop_errors_in_words(message: String)
    ensures
        desktop_error_text(DesktopError::ReadStartup(message)) == "读取 Windows 启动项失败："@
            + message@,
        desktop_error_text(DesktopError::OpenStartup(message)) == "打开 Windows 启动项失败："@
            + message@,
        desktop_error_text(DesktopError::ProgramPath(message)) == "无法确定当前程序路径："@
            + message@,
        desktop_error_text(DesktopError::WriteStartup(message)) == "写入 Windows 启动项失败："@
            + message@,
        desktop_error_text(DesktopError::RemoveStartup(message)) == "移除 Windows 启动项失败："@
            + message@,
        desktop_error_text(DesktopError::OpenPreferences(message)) == "打开应用偏好设置失败："@
            + message@,
        desktop_error_text(DesktopError::SavePreferences(message)) == "保存通知区域偏好失败："@
            + message@,
{
}

} // verus!
