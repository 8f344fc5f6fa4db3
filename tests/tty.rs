use rudo::tty::{get_tty_name, terminal_uuid, Terminal, TerminalEnv, TtyError, UUID_VARIABLES};

fn empty_env() -> TerminalEnv {
    TerminalEnv {
        gnome_terminal_screen: None,
        shell_session_id: None,
        terminator_uuid: None,
        tilix_id: None,
        roxterm_id: None,
        windowid: None,
    }
}

fn set(v: &str) -> Option<String> {
    Some(v.to_owned())
}

#[test]
fn test_ttyuuid_empty() {
    let env = empty_env();
    let result = terminal_uuid(&env);
    assert!(result.is_err(), "Test failed! It shouldn't accept 0");
}

#[test]
fn test_ttyuuid_windowid_zero() {
    let mut env = empty_env();
    env.windowid = set("0");
    let result = terminal_uuid(&env);
    assert!(result.is_err(), "Test failed! It shouldn't accept 0");
}

#[test]
fn test_ttyuuid_windowid() {
    let mut env = empty_env();
    env.windowid = set("325");
    let ttyuuid = terminal_uuid(&env).unwrap();
    assert!(!ttyuuid.is_empty(), "ttyuuid shouldn't be empty");
    assert!(ttyuuid == "325", "Test Failed: should have been the same number as WINDOWID");
}

#[test]
fn test_ttyuuid_roxterm_id() {
    let mut env = empty_env();
    env.roxterm_id = set("325768");
    let ttyuuid = terminal_uuid(&env).unwrap();
    assert!(!ttyuuid.is_empty(), "ttyuuid shouldn't be empty");
    assert!(ttyuuid == "325768", "Test Failed: should have been the same number as ROXTERM_ID");
}

#[test]
fn test_ttyuuid_tilix_id() {
    let mut env = empty_env();
    env.tilix_id = set("32576");
    let ttyuuid = terminal_uuid(&env).unwrap();
    assert!(!ttyuuid.is_empty(), "ttyuuid shouldn't be empty");
    assert!(ttyuuid == "32576", "Test Failed: should have been the same number as TILIX_ID");
}

#[test]
fn test_ttyuuid_terminator_uuid() {
    let mut env = empty_env();
    env.terminator_uuid = set("3257689");
    let ttyuuid = terminal_uuid(&env).unwrap();
    assert!(!ttyuuid.is_empty(), "ttyuuid shouldn't be empty");
    assert!(
        ttyuuid == "3257689",
        "Test Failed: should have been the same number as TERMINATOR_UUID"
    );
}

#[test]
fn test_ttyuuid_shell_session_id() {
    let mut env = empty_env();
    env.shell_session_id = set("325768vd");
    let ttyuuid = terminal_uuid(&env).unwrap();
    assert!(!ttyuuid.is_empty(), "ttyuuid shouldn't be empty");
    assert!(
        ttyuuid == "325768vd",
        "Test Failed: should have been the same number as SHELL_SESSION_ID"
    );
}

#[test]
fn test_ttyuuid_gnome_terminal_screen() {
    let mut env = empty_env();
    env.gnome_terminal_screen = set("32576821");
    let ttyuuid = terminal_uuid(&env).unwrap();
    assert!(!ttyuuid.is_empty(), "ttyuuid shouldn't be empty");
    assert!(
        ttyuuid == "32576821",
        "Test Failed: should have been the same number as GNOME_TERMINAL_SCREEN"
    );
}

#[test]
fn ttyuuid_prefers_the_most_trusted_variable() {
    let mut env = empty_env();
    env.windowid = set("0");
    env.tilix_id = set("tilix");
    env.shell_session_id = set("konsole");
    assert_eq!(terminal_uuid(&env).unwrap(), "konsole");
}

#[test]
fn ttyuuid_errors_are_distinguished() {
    let mut env = empty_env();
    assert_eq!(terminal_uuid(&env), Err(TtyError::UuidUnavailable));
    env.windowid = set("0");
    assert_eq!(terminal_uuid(&env), Err(TtyError::UntrustedUuid));
    env.windowid = set("00");
    assert_eq!(terminal_uuid(&env).unwrap(), "00");
}

#[test]
fn ttyuuid_zero_is_trusted_from_other_variables() {
    let mut env = empty_env();
    env.roxterm_id = set("0");
    assert_eq!(terminal_uuid(&env).unwrap(), "0");
}

#[test]
fn variable_names_in_order_of_trust() {
    assert_eq!(UUID_VARIABLES[0], "GNOME_TERMINAL_SCREEN");
    assert_eq!(UUID_VARIABLES[5], "WINDOWID");
}

#[test]
fn tty_name_requires_a_terminal() {
    assert_eq!(get_tty_name(false, Some("/dev/pts/0".to_owned())), Err(TtyError::NotATerminal));
    assert_eq!(get_tty_name(true, None), Err(TtyError::NameResolutionFailed));
    assert_eq!(get_tty_name(true, Some("/dev/pts/0".to_owned())).unwrap(), "/dev/pts/0");
}

#[test]
fn terminal_new_reports_name_before_identifier() {
    let env = empty_env();
    assert!(matches!(Terminal::new(false, None, &env), Err(TtyError::NotATerminal)));
    assert!(matches!(
        Terminal::new(true, Some("/dev/pts/3".to_owned()), &env),
        Err(TtyError::UuidUnavailable)
    ));
    let mut env = empty_env();
    env.tilix_id = set("abc");
    let t = Terminal::new(true, Some("/dev/pts/3".to_owned()), &env).unwrap();
    assert_eq!(t.terminal_name, "/dev/pts/3");
    assert_eq!(t.terminal_uuid, "abc");
}
