use std::io::Cursor;

use rpassword::{
    hidden_console_mode, hidden_local_flags, read_secret_line, HiddenRead, HiddenReadAction, HiddenReadEvent,
    PasswordError, ReadEnd, SafeString,
};

const ECHO: u64 = 0o10;
const ECHONL: u64 = 0o100;

fn line(text: &str) -> Result<SafeString, std::io::Error> {
    Ok(SafeString::from_string(String::from(text)))
}

fn finish(action: HiddenReadAction<u32>) -> Result<String, PasswordError> {
    match action {
        HiddenReadAction::Finish(end) => end.into_password(),
        _ => panic!("the read did not finish"),
    }
}

#[test]
fn echo_off_newline_on() {
    assert_eq!(hidden_local_flags(0o10 | 0o2 | 0o1, ECHO, ECHONL), 0o100 | 0o2 | 0o1);
    assert_eq!(hidden_local_flags(0, ECHO, ECHONL), 0o100);
    assert_eq!(hidden_local_flags(0o110, ECHO, ECHONL), 0o100);
    assert_eq!(hidden_local_flags(u64::MAX, ECHO, ECHONL), u64::MAX & !0o10);
}

#[test]
fn non_interactive_read_changes_no_mode() {
    let state: HiddenRead<u32> = HiddenRead::new();
    let (state, action) = state.step(HiddenReadEvent::Begin { interactive: false });
    assert!(matches!(action, HiddenReadAction::ReadLine));
    let (state, action) = state.step(HiddenReadEvent::LineRead(line("secret\n")));
    assert!(matches!(state, HiddenRead::Done));
    assert_eq!(finish(action).unwrap(), "secret");
}

#[test]
fn interactive_read_restores_saved_mode() {
    let state: HiddenRead<u32> = HiddenRead::new();
    let (state, action) = state.step(HiddenReadEvent::Begin { interactive: true });
    assert!(matches!(action, HiddenReadAction::HideEcho));
    let (state, action) = state.step(HiddenReadEvent::EchoHidden(Ok(0o1234)));
    assert!(matches!(action, HiddenReadAction::ReadLine));
    let mut input = Cursor::new(&b"secret\r\nnext\n"[..]);
    let (state, action) = state.step(HiddenReadEvent::LineRead(read_secret_line(&mut input)));
    assert!(matches!(action, HiddenReadAction::RestoreMode(0o1234)));
    let (state, action) = state.step(HiddenReadEvent::ModeRestored);
    assert!(matches!(state, HiddenRead::Done));
    assert_eq!(finish(action).unwrap(), "secret");
}

#[test]
fn failed_read_still_restores_saved_mode() {
    let state: HiddenRead<u32> = HiddenRead::new();
    let (state, _) = state.step(HiddenReadEvent::Begin { interactive: true });
    let (state, _) = state.step(HiddenReadEvent::EchoHidden(Ok(7)));
    let failure = std::io::Error::new(std::io::ErrorKind::Interrupted, "interrupted");
    let (state, action) = state.step(HiddenReadEvent::LineRead(Err(failure)));
    assert!(matches!(action, HiddenReadAction::RestoreMode(7)));
    let (_, action) = state.step(HiddenReadEvent::ModeRestored);
    assert!(matches!(finish(action), Err(PasswordError::Io(_))));
}

#[test]
fn unterminated_line_restores_then_fails() {
    let state: HiddenRead<u32> = HiddenRead::new();
    let (state, _) = state.step(HiddenReadEvent::Begin { interactive: true });
    let (state, _) = state.step(HiddenReadEvent::EchoHidden(Ok(9)));
    let (state, action) = state.step(HiddenReadEvent::LineRead(line("no-newline")));
    assert!(matches!(action, HiddenReadAction::RestoreMode(9)));
    let (_, action) = state.step(HiddenReadEvent::ModeRestored);
    assert!(matches!(finish(action), Err(PasswordError::UnexpectedEndOfInput)));
}

#[test]
fn failed_hide_restores_nothing() {
    let state: HiddenRead<u32> = HiddenRead::new();
    let (state, _) = state.step(HiddenReadEvent::Begin { interactive: true });
    let (state, action) = state.step(HiddenReadEvent::EchoHidden(Err(25)));
    assert!(matches!(state, HiddenRead::Done));
    assert!(matches!(action, HiddenReadAction::Finish(ReadEnd::ModeNotHidden(25))));
    assert!(matches!(finish(action), Err(PasswordError::OsError(25))));
}

#[test]
fn expects_only_the_awaited_event() {
    let state: HiddenRead<u32> = HiddenRead::new();
    assert!(state.expects(&HiddenReadEvent::Begin { interactive: true }));
    assert!(!state.expects(&HiddenReadEvent::ModeRestored));
    let (state, _) = state.step(HiddenReadEvent::Begin { interactive: false });
    assert!(state.expects(&HiddenReadEvent::LineRead(line("x\n"))));
    assert!(!state.expects(&HiddenReadEvent::EchoHidden(Ok(1))));
    let (state, _) = state.step(HiddenReadEvent::LineRead(line("x\n")));
    assert!(!state.expects(&HiddenReadEvent::ModeRestored));
}

#[test]
fn console_mode_replaces_the_old_one() {
    assert_eq!(hidden_console_mode(0x0002, 0x0001), 0x0003);
}
