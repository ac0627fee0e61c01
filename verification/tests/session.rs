use lecoo_control::session::{Session, Stop};

/// Asks for two numbers and adds them.
fn sum(io: &mut Session<&'static str, u8>) -> Result<u8, Stop<()>> {
    let first = *io.ask("first")?;
    let second = *io.ask("second")?;
    Ok(first + second)
}

#[test]
fn a_run_is_suspended_at_the_first_open_request() {
    let mut io = Session::new();
    assert_eq!(io.pending(), None);
    assert_eq!(sum(&mut io), Err(Stop::Suspended));
    assert_eq!(io.pending(), Some(&"first"));
    io.answer(3);
    assert_eq!(io.pending(), None);
    assert_eq!(sum(&mut io), Err(Stop::Suspended));
    assert_eq!(io.pending(), Some(&"second"));
    io.answer(4);
    assert_eq!(sum(&mut io), Ok(7));
    assert_eq!(io.asked(), &vec!["first", "second"]);
    assert_eq!(io.pending(), None);
}
