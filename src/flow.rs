//! The authentication of one invocation, as a state machine.
//!
//! The machine never touches the system itself. Each call of `Flow::step`
//! takes the outcome of the previous action (an `Event`) and returns the
//! next `Action` for the caller to perform: inspect or read the token file,
//! prompt for the password, validate the account, store a new token, switch
//! to the target user. The order is fixed: authorization first, then the
//! reuse of a session, else the interactive challenge, then the switch.

use vstd::prelude::*;

use crate::auth::{authentification, authorization};
use crate::config::UserConf;
use crate::session::{token_text, Token, TokenView, DEFAULT_SESSION_TIMEOUT};
use crate::store::{session_is_valid, session_probe, session_valid, token_path, PathKind, Probe};
use crate::tty::{opt_view, Terminal};
use crate::user::{AuthError, User};

verus! {

/// How many wrong passwords end the authentication.
pub const MAX_ATTEMPTS: u8 = 3;

/// Where the password challenge stands after an attempt.
#[derive(Debug, Clone, Copy, PartialEq, Eq, Structural)]
pub enum PasswordState {
    /// The password was accepted.
    Accepted,
    /// The password was refused; the number of refusals so far.
    Retry(u8),
    /// `MAX_ATTEMPTS` passwords were refused.
    Exhausted,
}

/// The state after an attempt, when `failures` attempts failed before it.
pub open spec fn password_next(failures: u8, ok: bool) -> PasswordState {
    if ok {
        PasswordState::Accepted
    } else if failures + 1 < MAX_ATTEMPTS {
        PasswordState::Retry((failures + 1) as u8)
    } else {
        PasswordState::Exhausted
    }
}

/// Records the outcome of one password attempt.
pub fn password_step(failures: u8, ok: bool) -> (r: PasswordState)
    requires
        failures < MAX_ATTEMPTS,
    ensures
        r == password_next(failures, ok),
{
    if ok {
        PasswordState::Accepted
    } else if failures + 1 < MAX_ATTEMPTS {
        PasswordState::Retry(failures + 1)
    } else {
        PasswordState::Exhausted
    }
}

/// Runs the challenge on the successive outcomes `outcomes` of the
/// authentication system: the number of prompts made and the final state.
pub open spec fn password_run(failures: u8, outcomes: Seq<bool>) -> (nat, PasswordState)
    decreases outcomes.len(),
{
    if outcomes.len() == 0 {
        (0, PasswordState::Retry(failures))
    } else {
        match password_next(failures, outcomes[0]) {
            PasswordState::Retry(n) => {
                let (k, s) = password_run(n, outcomes.drop_first());
                (k + 1, s)
            },
            s => (1, s),
        }
    }
}

/// The challenge prompts at most three times: three refusals end it as
/// exhausted, and an acceptance at the first, second or third prompt ends
/// it at once.
pub proof fn lemma_password_attempts(outcomes: Seq<bool>)
    requires
        outcomes.len() >= 3,
    ensures
        !outcomes[0] && !outcomes[1] && !outcomes[2] ==> password_run(0, outcomes) == (
        3nat,
        PasswordState::Exhausted,
        ),
        outcomes[0] ==> password_run(0, outcomes) == (1nat, PasswordState::Accepted),
        !outcomes[0] && outcomes[1] ==> password_run(0, outcomes) == (
        2nat,
        PasswordState::Accepted,
        ),
        !outcomes[0] && !outcomes[1] && outcomes[2] ==> password_run(0, outcomes) == (
        3nat,
        PasswordState::Accepted,
        ),
{
    let o1 = outcomes.drop_first();
    let o2 = o1.drop_first();
    assert(o1[0] == outcomes[1]);
    assert(o2[0] == outcomes[2]);
    reveal_with_fuel(password_run, 4);
}

/// Why an invocation is refused.
#[derive(Debug, Clone, Copy, PartialEq, Eq, Structural)]
pub enum Denial {
    /// The allow-list refused the invoker.
    NotAuthorized(AuthError),
    /// `MAX_ATTEMPTS` wrong passwords were given.
    TooManyAttempts,
    /// The account is locked, expired or otherwise invalid.
    AccountInvalid,
    /// A session directory path is held by something that is not a directory.
    ConfigInconsistency,
    /// The switch to the target user failed.
    SwitchFailed,
    /// An event came that the current phase does not expect.
    OutOfOrder,
}

/// What the machine waits for.
#[derive(Debug, Clone, Copy, PartialEq, Eq, Structural)]
pub enum Phase {
    /// Nothing has been done yet.
    Start,
    /// What the token path holds.
    InspectToken,
    /// The removal of a directory at the token path.
    RemoveTokenDir,
    /// The contents of the token file.
    ReadToken,
    /// The outcome of a password prompt, after the given number of refusals.
    Password(u8),
    /// The outcome of the account validation.
    Account,
    /// The preparation of the session directories.
    SessionDir,
    /// The writing of the new token.
    WriteToken,
    /// The outcome of the switch to the target user.
    Switch,
    /// Access was granted; nothing remains to be decided.
    Granted,
    /// Access was refused.
    Denied(Denial),
}

/// How the preparation of the session directories went.
#[derive(Debug, Clone, Copy, PartialEq, Eq, Structural)]
pub enum DirOutcome {
    /// Both directories exist with owner-only permissions.
    Ready,
    /// One of the paths is held by something that is not a directory.
    NotADirectory,
    /// The file system refused an operation.
    Failed,
}

/// The outcome of the last action, handed to the machine.
pub enum Event {
    /// Starts the machine.
    Begin,
    /// What the token path holds.
    TokenPath(PathKind),
    /// The directory at the token path was removed, or its removal was attempted.
    TokenDirRemoved,
    /// The token file contents (`None` if they could not be read) and the time.
    TokenRead(Option<String>, u64),
    /// Whether the password was accepted.
    PasswordChecked(bool),
    /// Whether the account is valid.
    AccountChecked(bool),
    /// How the session directories were prepared, and the time.
    SessionDirReady(DirOutcome, u64),
    /// Whether the new token was stored.
    TokenWritten(bool),
    /// Whether the switch to the target user succeeded.
    UserSwitched(bool),
}

/// What the caller must do next.
#[derive(Debug, PartialEq, Eq)]
pub enum Action {
    /// Find out what the token path holds; answer `TokenPath`.
    InspectToken(String),
    /// Remove the directory at the token path; answer `TokenDirRemoved`.
    RemoveTokenDir(String),
    /// Read the token file; answer `TokenRead`.
    ReadToken(String),
    /// Ask for the password; answer `PasswordChecked`.
    PromptPassword,
    /// Validate the account; answer `AccountChecked`.
    ValidateAccount,
    /// Make sure the session root and the user's session directory exist
    /// with owner-only permissions; answer `SessionDirReady`.
    PrepareSessionDir,
    /// Store the text (second) as the token file at the path (first); answer `TokenWritten`.
    WriteToken(String, String),
    /// Switch to the named target user; answer `UserSwitched`.
    SwitchUser(String),
    /// Access is granted: run the requested program.
    Proceed,
    /// Access is refused.
    Deny(Denial),
}

/// The authentication of one invocation.
pub struct Flow {
    /// The invoking user.
    pub user: User,
    /// The allow-list entry selected for the invoking user.
    pub entry: UserConf,
    /// The account to switch to.
    pub impuser: String,
    /// The calling terminal, if its identity could be resolved; without it
    /// no session is reused or stored.
    pub terminal: Option<Terminal>,
    /// The directory under which tokens are stored.
    pub session_root: String,
    /// Where the machine stands.
    pub phase: Phase,
}

/// The phase in which the interactive challenge starts.
pub open spec fn challenge_phase(f: Flow) -> Phase {
    if f.entry.password {
        Phase::Password(0)
    } else {
        Phase::Account
    }
}

/// The action that starts the interactive challenge: the password prompt,
/// or the account validation alone when the entry asks for no password.
pub open spec fn challenge_action(f: Flow) -> Action {
    if f.entry.password {
        Action::PromptPassword
    } else {
        Action::ValidateAccount
    }
}

/// The token path of the invocation.
pub open spec fn token_path_of(f: Flow) -> Seq<char> {
    f.session_root@ + f.user.username@ + f.terminal->0.terminal_name@
}

/// The token issued at `now` for the terminal of the invocation.
pub open spec fn issued_token(f: Flow, now: u64) -> TokenView {
    TokenView {
        tty_name: f.terminal->0.terminal_name@,
        tty_uuid: f.terminal->0.terminal_uuid@,
        timestamp: now,
        final_timestamp: (now + DEFAULT_SESSION_TIMEOUT) as u64,
    }
}

/// The action that asks for the switch to the target user.
pub open spec fn is_switch(f: Flow, a: Action) -> bool {
    a matches Action::SwitchUser(u) && u@ == f.impuser@
}

impl Flow {
    /// The phases that touch the token need a terminal, and the number of
    /// refusals stays below `MAX_ATTEMPTS`.
    pub open spec fn wf(&self) -> bool {
        &&& (self.phase == Phase::InspectToken || self.phase == Phase::RemoveTokenDir || self.phase
            == Phase::ReadToken || self.phase == Phase::SessionDir || self.phase
            == Phase::WriteToken) ==> self.terminal is Some
        &&& self.phase matches Phase::Password(n) ==> n < MAX_ATTEMPTS
    }

    /// Whether `f` holds the same invocation data as `self`.
    pub open spec fn same_data(&self, f: Flow) -> bool {
        &&& f.user == self.user
        &&& f.entry == self.entry
        &&& f.impuser == self.impuser
        &&& f.terminal == self.terminal
        &&& f.session_root == self.session_root
    }

    /// A machine for one invocation, before anything was done.
    pub fn new(
        user: User,
        entry: UserConf,
        impuser: String,
        terminal: Option<Terminal>,
        session_root: String,
    ) -> (r: Self)
        ensures
            r.phase == Phase::Start,
            r.wf(),
            r.user == user,
            r.entry == entry,
            r.impuser == impuser,
            r.terminal == terminal,
            r.session_root == session_root,
    {
        Flow { user, entry, impuser, terminal, session_root, phase: Phase::Start }
    }

    fn challenge(&mut self) -> (r: Action)
        ensures
            final(self).phase == challenge_phase(*old(self)),
            r == challenge_action(*old(self)),
            old(self).same_data(*final(self)),
    {
        if self.entry.password {
            self.phase = Phase::Password(0);
            Action::PromptPassword
        } else {
            self.phase = Phase::Account;
            Action::ValidateAccount
        }
    }

    fn switch(&mut self) -> (r: Action)
        ensures
            final(self).phase == Phase::Switch,
            is_switch(*old(self), r),
            old(self).same_data(*final(self)),
    {
        self.phase = Phase::Switch;
        Action::SwitchUser(self.impuser.as_str().to_owned())
    }

    fn deny(&mut self, d: Denial) -> (r: Action)
        ensures
            final(self).phase == Phase::Denied(d),
            r == Action::Deny(d),
            old(self).same_data(*final(self)),
    {
        self.phase = Phase::Denied(d);
        Action::Deny(d)
    }

    fn current_token_path(&self) -> (r: String)
        requires
            self.terminal is Some,
        ensures
            r@ == token_path_of(*self),
    {
        match &self.terminal {
            Some(t) => token_path(
                self.session_root.as_str(),
                self.user.username.as_str(),
                t.terminal_name.as_str(),
            ),
            None => String::new(),
        }
    }

    /// Takes the outcome of the last action and returns the next action.
    /// An event that the current phase does not expect refuses access.
    pub fn step(&mut self, event: Event) -> (r: Action)
        requires
            old(self).wf(),
        ensures
            final(self).wf(),
            old(self).same_data(*final(self)),
            // Authorization comes first; a refusal ends everything.
            old(self).phase == Phase::Start ==> match event {
                Event::Begin => {
                    let a = authorization(
                        old(self).user.username@,
                        old(self).user.group_names(),
                        old(self).entry@,
                    );
                    match a {
                        Err(e) => final(self).phase == Phase::Denied(Denial::NotAuthorized(e))
                            && r == Action::Deny(Denial::NotAuthorized(e)),
                        Ok(_) => if old(self).terminal is Some {
                            final(self).phase == Phase::InspectToken && (r matches Action::InspectToken(p)
                                && p@ == token_path_of(*old(self)))
                        } else {
                            final(self).phase == challenge_phase(*old(self)) && r
                                == challenge_action(*old(self))
                        },
                    }
                },
                _ => final(self).phase == Phase::Denied(Denial::OutOfOrder),
            },
            // A directory at the token path is removed and counts as no session.
            old(self).phase == Phase::InspectToken ==> match event {
                Event::TokenPath(PathKind::Directory) => final(self).phase == Phase::RemoveTokenDir
                    && (r matches Action::RemoveTokenDir(p) && p@ == token_path_of(*old(self))),
                Event::TokenPath(PathKind::File) => final(self).phase == Phase::ReadToken
                    && (r matches Action::ReadToken(p) && p@ == token_path_of(*old(self))),
                Event::TokenPath(PathKind::Missing) => final(self).phase == challenge_phase(
                    *old(self),
                ) && r == challenge_action(*old(self)),
                _ => final(self).phase == Phase::Denied(Denial::OutOfOrder),
            },
            old(self).phase == Phase::RemoveTokenDir ==> match event {
                Event::TokenDirRemoved => final(self).phase == challenge_phase(*old(self)) && r
                    == challenge_action(*old(self)),
                _ => final(self).phase == Phase::Denied(Denial::OutOfOrder),
            },
            // A valid token skips the challenge; anything else starts it.
            old(self).phase == Phase::ReadToken ==> match event {
                Event::TokenRead(c, now) => if session_valid(
                    opt_view(c),
                    old(self).terminal->0.terminal_name@,
                    old(self).terminal->0.terminal_uuid@,
                    now,
                ) {
                    final(self).phase == Phase::Switch && is_switch(*old(self), r)
                } else {
                    final(self).phase == challenge_phase(*old(self)) && r == challenge_action(
                        *old(self),
                    )
                },
                _ => final(self).phase == Phase::Denied(Denial::OutOfOrder),
            },
            old(self).phase matches Phase::Password(n) ==> match event {
                Event::PasswordChecked(ok) => match password_next(n, ok) {
                    PasswordState::Accepted => final(self).phase == Phase::Account && r
                        == Action::ValidateAccount,
                    PasswordState::Retry(m) => final(self).phase == Phase::Password(m) && r
                        == Action::PromptPassword,
                    PasswordState::Exhausted => final(self).phase == Phase::Denied(
                        Denial::TooManyAttempts,
                    ) && r == Action::Deny(Denial::TooManyAttempts),
                },
                _ => final(self).phase == Phase::Denied(Denial::OutOfOrder),
            },
            // A valid account leads to storing a token when there is a terminal.
            old(self).phase == Phase::Account ==> match event {
                Event::AccountChecked(ok) => if !ok {
                    final(self).phase == Phase::Denied(Denial::AccountInvalid) && r == Action::Deny(
                        Denial::AccountInvalid,
                    )
                } else if old(self).terminal is Some {
                    final(self).phase == Phase::SessionDir && r == Action::PrepareSessionDir
                } else {
                    final(self).phase == Phase::Switch && is_switch(*old(self), r)
                },
                _ => final(self).phase == Phase::Denied(Denial::OutOfOrder),
            },
            // A storage failure only costs the reuse of the session next time.
            old(self).phase == Phase::SessionDir ==> match event {
                Event::SessionDirReady(DirOutcome::NotADirectory, _) => final(self).phase
                    == Phase::Denied(Denial::ConfigInconsistency) && r == Action::Deny(
                    Denial::ConfigInconsistency,
                ),
                Event::SessionDirReady(DirOutcome::Failed, _) => final(self).phase == Phase::Switch
                    && is_switch(*old(self), r),
                Event::SessionDirReady(DirOutcome::Ready, now) => if now + DEFAULT_SESSION_TIMEOUT
                    <= u64::MAX {
                    final(self).phase == Phase::WriteToken && (r matches Action::WriteToken(p, t)
                        && p@ == token_path_of(*old(self)) && t@ == token_text(
                        issued_token(*old(self), now),
                    ))
                } else {
                    final(self).phase == Phase::Switch && is_switch(*old(self), r)
                },
                _ => final(self).phase == Phase::Denied(Denial::OutOfOrder),
            },
            old(self).phase == Phase::WriteToken ==> match event {
                Event::TokenWritten(_) => final(self).phase == Phase::Switch && is_switch(
                    *old(self),
                    r,
                ),
                _ => final(self).phase == Phase::Denied(Denial::OutOfOrder),
            },
            old(self).phase == Phase::Switch ==> match event {
                Event::UserSwitched(true) => final(self).phase == Phase::Granted && r
                    == Action::Proceed,
                Event::UserSwitched(false) => final(self).phase == Phase::Denied(
                    Denial::SwitchFailed,
                ) && r == Action::Deny(Denial::SwitchFailed),
                _ => final(self).phase == Phase::Denied(Denial::OutOfOrder),
            },
            // The end states are kept.
            old(self).phase == Phase::Granted ==> final(self).phase == Phase::Granted && r
                == Action::Proceed,
            old(self).phase matches Phase::Denied(d) ==> final(self).phase == Phase::Denied(d)
                && r == Action::Deny(d),
    {
        match self.phase {
            Phase::Start => match event {
                Event::Begin => match authentification(&self.entry, &self.user) {
                    Err(e) => self.deny(Denial::NotAuthorized(e)),
                    Ok(()) => {
                        if self.terminal.is_some() {
                            let p = self.current_token_path();
                            self.phase = Phase::InspectToken;
                            Action::InspectToken(p)
                        } else {
                            self.challenge()
                        }
                    },
                },
                _ => self.deny(Denial::OutOfOrder),
            },
            Phase::InspectToken => match event {
                Event::TokenPath(kind) => match session_probe(kind) {
                    Probe::RemoveDirectory => {
                        let p = self.current_token_path();
                        self.phase = Phase::RemoveTokenDir;
                        Action::RemoveTokenDir(p)
                    },
                    Probe::ReadFile => {
                        let p = self.current_token_path();
                        self.phase = Phase::ReadToken;
                        Action::ReadToken(p)
                    },
                    Probe::NoSession => self.challenge(),
                },
                _ => self.deny(Denial::OutOfOrder),
            },
            Phase::RemoveTokenDir => match event {
                Event::TokenDirRemoved => self.challenge(),
                _ => self.deny(Denial::OutOfOrder),
            },
            Phase::ReadToken => match event {
                Event::TokenRead(contents, now) => {
                    let valid = match &self.terminal {
                        Some(t) => session_is_valid(&contents, t, now),
                        None => false,
                    };
                    if valid {
                        self.switch()
                    } else {
                        self.challenge()
                    }
                },
                _ => self.deny(Denial::OutOfOrder),
            },
            Phase::Password(n) => match event {
                Event::PasswordChecked(ok) => match password_step(n, ok) {
                    PasswordState::Accepted => {
                        self.phase = Phase::Account;
                        Action::ValidateAccount
                    },
                    PasswordState::Retry(m) => {
                        self.phase = Phase::Password(m);
                        Action::PromptPassword
                    },
                    PasswordState::Exhausted => self.deny(Denial::TooManyAttempts),
                },
                _ => self.deny(Denial::OutOfOrder),
            },
            Phase::Account => match event {
                Event::AccountChecked(ok) => {
                    if !ok {
                        self.deny(Denial::AccountInvalid)
                    } else if self.terminal.is_some() {
                        self.phase = Phase::SessionDir;
                        Action::PrepareSessionDir
                    } else {
                        self.switch()
                    }
                },
                _ => self.deny(Denial::OutOfOrder),
            },
            Phase::SessionDir => match event {
                Event::SessionDirReady(DirOutcome::NotADirectory, _) => self.deny(
                    Denial::ConfigInconsistency,
                ),
                Event::SessionDirReady(DirOutcome::Failed, _) => self.switch(),
                Event::SessionDirReady(DirOutcome::Ready, now) => {
                    let issued = match &self.terminal {
                        Some(t) => Token::new(
                            t.terminal_name.as_str(),
                            t.terminal_uuid.as_str(),
                            now,
                        ),
                        None => Token::new("", "", now),
                    };
                    match issued {
                        Ok(token) => {
                            let p = self.current_token_path();
                            let text = token.to_text();
                            self.phase = Phase::WriteToken;
                            Action::WriteToken(p, text)
                        },
                        Err(_) => self.switch(),
                    }
                },
                _ => self.deny(Denial::OutOfOrder),
            },
            Phase::WriteToken => match event {
                Event::TokenWritten(_) => self.switch(),
                _ => self.deny(Denial::OutOfOrder),
            },
            Phase::Switch => match event {
                Event::UserSwitched(true) => {
                    self.phase = Phase::Granted;
                    Action::Proceed
                },
                Event::UserSwitched(false) => self.deny(Denial::SwitchFailed),
                _ => self.deny(Denial::OutOfOrder),
            },
            Phase::Granted => Action::Proceed,
            Phase::Denied(d) => Action::Deny(d),
        }
    }
}

} // verus!
