use lecoo_control::gui::desktop::{
    minimize_to_tray_enabled, set_minimize_to_tray_enabled, set_startup_enabled, startup_enabled,
    DesktopError, DesktopIo, RegistryReply, RegistryRequest,
};
use lecoo_control::session::{Session, Stop};

fn play<T>(
    replies: Vec<RegistryReply>,
    mut operation: impl FnMut(&mut DesktopIo) -> Result<T, Stop<DesktopError>>,
) -> (Result<T, DesktopError>, Vec<String>) {
    let mut io: DesktopIo = Session::new();
    let mut replies = replies.into_iter();
    loop {
        let outcome = match operation(&mut io) {
            Ok(value) => Ok(value),
            Err(Stop::Failed(error)) => Err(error),
            Err(Stop::Suspended) => {
                io.answer(replies.next().expect("enough replies"));
                continue;
            }
        };
        return (outcome, io.asked().iter().map(|request| format!("{request:?}")).collect());
    }
}

fn missing() -> RegistryReply {
    RegistryReply::NotFound("missing".to_owned())
}

fn fault() -> RegistryReply {
    RegistryReply::Fault("denied".to_owned())
}

#[test]
fn startup_is_on_where_there_is_an_entry() {
    let done = || RegistryReply::Done;
    assert_eq!(play(vec![done(), done()], |io| startup_enabled(io)).0, Ok(true));
    assert_eq!(play(vec![done(), missing()], |io| startup_enabled(io)).0, Ok(false));
    assert_eq!(play(vec![missing()], |io| startup_enabled(io)).0, Ok(false));
    let denied = Err(DesktopError::ReadStartup("denied".to_owned()));
    assert_eq!(play(vec![fault()], |io| startup_enabled(io)).0, denied);
    assert_eq!(play(vec![done(), fault()], |io| startup_enabled(io)).0, denied);
    assert_eq!(denied.unwrap_err().message(), "读取 Windows 启动项失败：denied");
}

#[test]
fn turning_startup_on_writes_the_command() {
    let (result, asked) = play(
        vec![
            RegistryReply::Done,
            RegistryReply::Path(r"C:\a b\c.exe".to_owned()),
            RegistryReply::Done,
        ],
        |io| set_startup_enabled(true, io),
    );
    assert_eq!(result, Ok(()));
    let written = RegistryRequest::WriteStartup(r#""C:\a b\c.exe" --minimized"#.to_owned());
    assert_eq!(
        asked,
        vec!["CreateRun".to_owned(), "ProgramPath".to_owned(), format!("{written:?}")]
    );
    let on = |replies| play(replies, |io| set_startup_enabled(true, io)).0;
    assert_eq!(on(vec![fault()]), Err(DesktopError::OpenStartup("denied".to_owned())));
    assert_eq!(
        on(vec![RegistryReply::Done, missing()]),
        Err(DesktopError::ProgramPath("missing".to_owned()))
    );
    assert_eq!(
        on(vec![RegistryReply::Done, RegistryReply::Path("x".to_owned()), fault()]),
        Err(DesktopError::WriteStartup("denied".to_owned()))
    );
    assert_eq!(
        on(vec![RegistryReply::Number(1)]),
        Err(DesktopError::UnexpectedReply)
    );
}

#[test]
fn turning_startup_off_forgives_a_missing_entry() {
    let off = |replies| play(replies, |io| set_startup_enabled(false, io)).0;
    assert_eq!(off(vec![missing()]), Ok(()));
    assert_eq!(off(vec![RegistryReply::Done, missing()]), Ok(()));
    assert_eq!(off(vec![RegistryReply::Done, RegistryReply::Done]), Ok(()));
    assert_eq!(off(vec![fault()]), Err(DesktopError::OpenStartup("denied".to_owned())));
    assert_eq!(
        off(vec![RegistryReply::Done, fault()]),
        Err(DesktopError::RemoveStartup("denied".to_owned()))
    );
}

#[test]
fn minimizing_is_off_unless_it_reads_as_on() {
    let told = |replies| play(replies, |io| minimize_to_tray_enabled(io)).0;
    assert_eq!(told(vec![missing()]), Ok(false));
    assert_eq!(told(vec![fault()]), Ok(false));
    assert_eq!(told(vec![RegistryReply::Done, fault()]), Ok(false));
    assert_eq!(told(vec![RegistryReply::Done, RegistryReply::Number(0)]), Ok(false));
    assert_eq!(told(vec![RegistryReply::Done, RegistryReply::Number(2)]), Ok(true));
    let (result, asked) = play(vec![RegistryReply::Done, RegistryReply::Done], |io| {
        set_minimize_to_tray_enabled(true, io)
    });
    assert_eq!(result, Ok(()));
    assert_eq!(asked, vec!["CreatePreferences", "WriteMinimize(1)"]);
    let set = |replies| play(replies, |io| set_minimize_to_tray_enabled(false, io)).0;
    assert_eq!(set(vec![fault()]), Err(DesktopError::OpenPreferences("denied".to_owned())));
    assert_eq!(
        set(vec![RegistryReply::Done, fault()]),
        Err(DesktopError::SavePreferences("denied".to_owned()))
    );
}
