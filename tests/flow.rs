use rudo::config::UserConf;
use rudo::flow::{
    password_step, Action, Denial, DirOutcome, Event, Flow, PasswordState, Phase, MAX_ATTEMPTS,
};
use rudo::session::Token;
use rudo::store::{PathKind, SESSION_PATH};
use rudo::tty::{Terminal, TerminalEnv};
use rudo::user::{AuthError, User};

const NOW: u64 = 1_700_000_000;
const TOKEN_PATH: &str = "/run/rudo/alice/dev/pts/0";

fn alice(groups: &[&str]) -> User {
    User::new("alice".to_owned(), groups.iter().map(|g| g.to_string()).collect())
}

fn entry(password: bool) -> UserConf {
    UserConf {
        username: "alice".to_owned(),
        group: "wheel".to_owned(),
        password,
        greeting: false,
    }
}

fn terminal() -> Terminal {
    Terminal { terminal_name: "/dev/pts/0".to_owned(), terminal_uuid: "win-1".to_owned() }
}

fn flow(groups: &[&str], password: bool, terminal: Option<Terminal>) -> Flow {
    Flow::new(alice(groups), entry(password), "root".to_owned(), terminal, SESSION_PATH.to_owned())
}

fn switch_to_root() -> Action {
    Action::SwitchUser("root".to_owned())
}

#[test]
fn first_authentication_prompts_once_and_stores_a_token() {
    let mut f = flow(&["alice", "wheel"], true, Some(terminal()));
    assert_eq!(f.step(Event::Begin), Action::InspectToken(TOKEN_PATH.to_owned()));
    assert_eq!(f.step(Event::TokenPath(PathKind::Missing)), Action::PromptPassword);
    assert_eq!(f.step(Event::PasswordChecked(true)), Action::ValidateAccount);
    assert_eq!(f.step(Event::AccountChecked(true)), Action::PrepareSessionDir);
    let action = f.step(Event::SessionDirReady(DirOutcome::Ready, NOW));
    let text = match action {
        Action::WriteToken(path, text) => {
            assert_eq!(path, TOKEN_PATH);
            text
        }
        other => panic!("unexpected action {:?}", other),
    };
    let token = Token::from_text(&text).unwrap();
    assert_eq!(token.timestamp, NOW);
    assert_eq!(token.final_timestamp, token.timestamp + 600);
    assert_eq!(token.tty_name, "/dev/pts/0");
    assert_eq!(token.tty_uuid, "win-1");
    assert_eq!(f.step(Event::TokenWritten(true)), switch_to_root());
    assert_eq!(f.step(Event::UserSwitched(true)), Action::Proceed);
    assert_eq!(f.phase, Phase::Granted);
}

#[test]
fn valid_token_skips_the_password() {
    let stored = Token::new("/dev/pts/0", "win-1", NOW - 100).unwrap().to_text();
    let mut f = flow(&["alice", "wheel"], true, Some(terminal()));
    assert_eq!(f.step(Event::Begin), Action::InspectToken(TOKEN_PATH.to_owned()));
    assert_eq!(f.step(Event::TokenPath(PathKind::File)), Action::ReadToken(TOKEN_PATH.to_owned()));
    assert_eq!(f.step(Event::TokenRead(Some(stored), NOW)), switch_to_root());
    assert_eq!(f.step(Event::UserSwitched(true)), Action::Proceed);
}

#[test]
fn expired_or_foreign_token_asks_again() {
    let expired = Token::new("/dev/pts/0", "win-1", NOW - 600).unwrap().to_text();
    let mut f = flow(&["wheel"], true, Some(terminal()));
    f.step(Event::Begin);
    f.step(Event::TokenPath(PathKind::File));
    assert_eq!(f.step(Event::TokenRead(Some(expired), NOW)), Action::PromptPassword);

    let foreign = Token::new("/dev/pts/0", "win-2", NOW).unwrap().to_text();
    let mut f = flow(&["wheel"], true, Some(terminal()));
    f.step(Event::Begin);
    f.step(Event::TokenPath(PathKind::File));
    assert_eq!(f.step(Event::TokenRead(Some(foreign), NOW)), Action::PromptPassword);

    let mut f = flow(&["wheel"], true, Some(terminal()));
    f.step(Event::Begin);
    f.step(Event::TokenPath(PathKind::File));
    assert_eq!(f.step(Event::TokenRead(None, NOW)), Action::PromptPassword);
}

#[test]
fn non_member_is_denied_before_anything_else() {
    let mut f = flow(&["alice", "audio"], true, Some(terminal()));
    let denied = Action::Deny(Denial::NotAuthorized(AuthError::NotGroupMember));
    assert_eq!(f.step(Event::Begin), denied);
    assert_eq!(f.phase, Phase::Denied(Denial::NotAuthorized(AuthError::NotGroupMember)));
    assert_eq!(f.step(Event::PasswordChecked(true)), denied);
}

#[test]
fn untrusted_window_id_forces_interactive_authentication() {
    let env = TerminalEnv {
        gnome_terminal_screen: None,
        shell_session_id: None,
        terminator_uuid: None,
        tilix_id: None,
        roxterm_id: None,
        windowid: Some("0".to_owned()),
    };
    let resolved = Terminal::new(true, Some("/dev/pts/0".to_owned()), &env);
    assert!(resolved.is_err());
    let mut f = flow(&["wheel"], true, resolved.ok());
    assert_eq!(f.step(Event::Begin), Action::PromptPassword);
    assert_eq!(f.step(Event::PasswordChecked(true)), Action::ValidateAccount);
    assert_eq!(f.step(Event::AccountChecked(true)), switch_to_root());
}

#[test]
fn three_wrong_passwords_end_the_authentication() {
    let mut f = flow(&["wheel"], true, None);
    assert_eq!(f.step(Event::Begin), Action::PromptPassword);
    assert_eq!(f.step(Event::PasswordChecked(false)), Action::PromptPassword);
    assert_eq!(f.step(Event::PasswordChecked(false)), Action::PromptPassword);
    assert_eq!(f.step(Event::PasswordChecked(false)), Action::Deny(Denial::TooManyAttempts));
    assert_eq!(f.step(Event::PasswordChecked(true)), Action::Deny(Denial::TooManyAttempts));
}

#[test]
fn success_on_third_attempt_stops_prompting() {
    let mut f = flow(&["wheel"], true, None);
    f.step(Event::Begin);
    f.step(Event::PasswordChecked(false));
    f.step(Event::PasswordChecked(false));
    assert_eq!(f.step(Event::PasswordChecked(true)), Action::ValidateAccount);
}

#[test]
fn password_step_counts_failures() {
    assert_eq!(MAX_ATTEMPTS, 3);
    assert_eq!(password_step(0, true), PasswordState::Accepted);
    assert_eq!(password_step(0, false), PasswordState::Retry(1));
    assert_eq!(password_step(1, false), PasswordState::Retry(2));
    assert_eq!(password_step(2, false), PasswordState::Exhausted);
    assert_eq!(password_step(2, true), PasswordState::Accepted);
}

#[test]
fn no_password_still_validates_the_account() {
    let mut f = flow(&["wheel"], false, None);
    assert_eq!(f.step(Event::Begin), Action::ValidateAccount);
    assert_eq!(f.step(Event::AccountChecked(false)), Action::Deny(Denial::AccountInvalid));
}

#[test]
fn directory_at_token_path_is_removed_without_error() {
    let mut f = flow(&["wheel"], true, Some(terminal()));
    f.step(Event::Begin);
    assert_eq!(
        f.step(Event::TokenPath(PathKind::Directory)),
        Action::RemoveTokenDir(TOKEN_PATH.to_owned())
    );
    assert_eq!(f.step(Event::TokenDirRemoved), Action::PromptPassword);
}

#[test]
fn storage_problems_do_not_revoke_the_grant() {
    let mut f = flow(&["wheel"], false, Some(terminal()));
    f.step(Event::Begin);
    f.step(Event::TokenPath(PathKind::Missing));
    f.step(Event::AccountChecked(true));
    assert_eq!(f.step(Event::SessionDirReady(DirOutcome::Failed, NOW)), switch_to_root());

    let mut f = flow(&["wheel"], false, Some(terminal()));
    f.step(Event::Begin);
    f.step(Event::TokenPath(PathKind::Missing));
    f.step(Event::AccountChecked(true));
    f.step(Event::SessionDirReady(DirOutcome::Ready, NOW));
    assert_eq!(f.step(Event::TokenWritten(false)), switch_to_root());
}

#[test]
fn file_in_place_of_session_directory_is_fatal() {
    let mut f = flow(&["wheel"], false, Some(terminal()));
    f.step(Event::Begin);
    f.step(Event::TokenPath(PathKind::Missing));
    f.step(Event::AccountChecked(true));
    assert_eq!(
        f.step(Event::SessionDirReady(DirOutcome::NotADirectory, NOW)),
        Action::Deny(Denial::ConfigInconsistency)
    );
}

#[test]
fn failed_switch_and_stray_events_deny() {
    let mut f = flow(&["wheel"], false, None);
    f.step(Event::Begin);
    f.step(Event::AccountChecked(true));
    assert_eq!(f.step(Event::UserSwitched(false)), Action::Deny(Denial::SwitchFailed));

    let mut f = flow(&["wheel"], true, None);
    assert_eq!(f.step(Event::PasswordChecked(true)), Action::Deny(Denial::OutOfOrder));
}
