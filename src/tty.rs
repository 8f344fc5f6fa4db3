//! The identity of the calling terminal: its name and an instance identifier.

use vstd::prelude::*;

use crate::text::same_text;

verus! {

/// Why the terminal identity could not be resolved.
#[derive(Debug, Clone, Copy, PartialEq, Eq, Structural)]
pub enum TtyError {
    /// Standard input is not a terminal.
    NotATerminal,
    /// The system gave no name for the terminal.
    NameResolutionFailed,
    /// None of the recognized environment variables is set.
    UuidUnavailable,
    /// The only identifier is a `WINDOWID` of `0`, which some emulators give
    /// to every window.
    UntrustedUuid,
}

/// The environment variables that may identify a terminal instance, from
/// the most trusted to the least.
pub const UUID_VARIABLES: [&'static str; 6] = [
    "GNOME_TERMINAL_SCREEN",
    "SHELL_SESSION_ID",
    "TERMINATOR_UUID",
    "TILIX_ID",
    "ROXTERM_ID",
    "WINDOWID",
];

/// The values of the identifying environment variables, `None` where unset.
pub struct TerminalEnv {
    pub gnome_terminal_screen: Option<String>,
    pub shell_session_id: Option<String>,
    pub terminator_uuid: Option<String>,
    pub tilix_id: Option<String>,
    pub roxterm_id: Option<String>,
    pub windowid: Option<String>,
}

/// The view of an optional string.
pub open spec fn opt_view(o: Option<String>) -> Option<Seq<char>> {
    match o {
        Some(s) => Some(s@),
        None => None,
    }
}

/// The identifier chosen from the environment: the first variable set, in
/// order of trust, except that a `WINDOWID` of `"0"` is refused.
pub open spec fn uuid_choice(env: TerminalEnv) -> Result<Seq<char>, TtyError> {
    if env.gnome_terminal_screen is Some {
        Ok(env.gnome_terminal_screen->0@)
    } else if env.shell_session_id is Some {
        Ok(env.shell_session_id->0@)
    } else if env.terminator_uuid is Some {
        Ok(env.terminator_uuid->0@)
    } else if env.tilix_id is Some {
        Ok(env.tilix_id->0@)
    } else if env.roxterm_id is Some {
        Ok(env.roxterm_id->0@)
    } else if env.windowid is Some {
        if env.windowid->0@ == "0"@ {
            Err(TtyError::UntrustedUuid)
        } else {
            Ok(env.windowid->0@)
        }
    } else {
        Err(TtyError::UuidUnavailable)
    }
}

/// The view of a result that carries a string.
pub open spec fn result_view(r: Result<String, TtyError>) -> Result<Seq<char>, TtyError> {
    match r {
        Ok(s) => Ok(s@),
        Err(e) => Err(e),
    }
}

fn copy_of(s: &Option<String>) -> (r: String)
    requires
        s is Some,
    ensures
        r@ == s->0@,
{
    match s {
        Some(v) => v.as_str().to_owned(),
        None => String::new(),
    }
}

/// Chooses the terminal instance identifier from the environment.
pub fn terminal_uuid(env: &TerminalEnv) -> (r: Result<String, TtyError>)
    ensures
        result_view(r) == uuid_choice(*env),
{
    if env.gnome_terminal_screen.is_some() {
        Ok(copy_of(&env.gnome_terminal_screen))
    } else if env.shell_session_id.is_some() {
        Ok(copy_of(&env.shell_session_id))
    } else if env.terminator_uuid.is_some() {
        Ok(copy_of(&env.terminator_uuid))
    } else if env.tilix_id.is_some() {
        Ok(copy_of(&env.tilix_id))
    } else if env.roxterm_id.is_some() {
        Ok(copy_of(&env.roxterm_id))
    } else if env.windowid.is_some() {
        let uuid = copy_of(&env.windowid);
        if same_text(uuid.as_str(), "0") {
            Err(TtyError::UntrustedUuid)
        } else {
            Ok(uuid)
        }
    } else {
        Err(TtyError::UuidUnavailable)
    }
}

/// The terminal name, given whether standard input is a terminal and the
/// name that the system reported for it.
pub open spec fn name_choice(is_tty: bool, name: Option<Seq<char>>) -> Result<Seq<char>, TtyError> {
    if !is_tty {
        Err(TtyError::NotATerminal)
    } else {
        match name {
            Some(n) => Ok(n),
            None => Err(TtyError::NameResolutionFailed),
        }
    }
}

/// Resolves the terminal name from what the system reported.
pub fn get_tty_name(is_tty: bool, name: Option<String>) -> (r: Result<String, TtyError>)
    ensures
        result_view(r) == name_choice(is_tty, opt_view(name)),
{
    if !is_tty {
        return Err(TtyError::NotATerminal);
    }
    match name {
        Some(n) => Ok(n),
        None => Err(TtyError::NameResolutionFailed),
    }
}

/// The calling terminal: its name and instance identifier.
pub struct Terminal {
    /// Name of the terminal device.
    pub terminal_name: String,
    /// Identifier of the terminal instance.
    pub terminal_uuid: String,
}

impl Terminal {
    /// Resolves the terminal identity; a missing name is reported before a
    /// missing identifier.
    pub fn new(is_tty: bool, name: Option<String>, env: &TerminalEnv) -> (r: Result<Self, TtyError>)
        ensures
            match (name_choice(is_tty, opt_view(name)), uuid_choice(*env)) {
                (Err(e), _) => r == Err::<Terminal, TtyError>(e),
                (Ok(_), Err(e)) => r == Err::<Terminal, TtyError>(e),
                (Ok(n), Ok(u)) => r matches Ok(t) && t.terminal_name@ == n && t.terminal_uuid@ == u,
            },
    {
        let terminal_name = get_tty_name(is_tty, name)?;
        let terminal_uuid = terminal_uuid(env)?;
        Ok(Terminal { terminal_name, terminal_uuid })
    }
}

} // verus!
