//! Where tokens live on disk and the decisions taken on what is found there.
//!
//! The caller inspects the file system and performs the actions; the
//! functions here decide which action follows from what was found.

use vstd::prelude::*;

use crate::session::{parse_token, valid_for_reuse, Token};
use crate::tty::Terminal;

verus! {

/// The directory under which the per-user session directories lie.
pub const SESSION_PATH: &'static str = "/run/rudo/";

/// The permission bits of session directories and token files: owner only.
pub const OWNER_ONLY_MODE: u32 = 0o600;

/// What occupies a path.
#[derive(Debug, Clone, Copy, PartialEq, Eq, Structural)]
pub enum PathKind {
    /// Nothing.
    Missing,
    /// A regular file (or anything that is not a directory).
    File,
    /// A directory.
    Directory,
}

/// The path of the token of `username` on the terminal `tty_name`.
pub fn token_path(root: &str, username: &str, tty_name: &str) -> (r: String)
    ensures
        r@ == root@ + username@ + tty_name@,
{
    let mut p = root.to_owned();
    p.append(username);
    p.append(tty_name);
    p
}

/// The session directory of `username`.
pub fn user_dir_path(root: &str, username: &str) -> (r: String)
    ensures
        r@ == root@ + username@ + seq!['/'],
{
    let mut p = root.to_owned();
    p.append(username);
    proof {
        reveal_strlit("/");
    }
    p.append("/");
    p
}

/// What to do with a directory of the session hierarchy.
#[derive(Debug, Clone, Copy, PartialEq, Eq, Structural)]
pub enum DirAction {
    /// Create it with mode `OWNER_ONLY_MODE`, with any missing parent.
    Create,
    /// Set its permission bits back to `OWNER_ONLY_MODE`.
    Repair,
    /// Leave it as it is.
    Keep,
}

/// Why the session hierarchy cannot be used.
#[derive(Debug, Clone, Copy, PartialEq, Eq, Structural)]
pub enum StoreError {
    /// A path that must be a directory is held by something else.
    NotADirectory,
}

/// The decision for a session directory found as `kind`, with permission
/// bits `mode` if it is a directory: create what is missing, repair loosened
/// permissions, and refuse to replace anything that is not a directory.
pub fn dir_action(kind: PathKind, mode: u32) -> (r: Result<DirAction, StoreError>)
    ensures
        kind == PathKind::Missing ==> r == Ok::<DirAction, StoreError>(DirAction::Create),
        kind == PathKind::File ==> r == Err::<DirAction, StoreError>(StoreError::NotADirectory),
        kind == PathKind::Directory ==> r == Ok::<DirAction, StoreError>(
            if mode & 0o7777 == OWNER_ONLY_MODE {
                DirAction::Keep
            } else {
                DirAction::Repair
            },
        ),
{
    match kind {
        PathKind::Missing => Ok(DirAction::Create),
        PathKind::File => Err(StoreError::NotADirectory),
        PathKind::Directory => {
            if mode & 0o7777 == OWNER_ONLY_MODE {
                Ok(DirAction::Keep)
            } else {
                Ok(DirAction::Repair)
            }
        },
    }
}

/// How a token file is written, given what its path holds.
#[derive(Debug, Clone, Copy, PartialEq, Eq, Structural)]
pub enum WritePlan {
    /// Remove what is there, then write the new file.
    Replace,
    /// Create the missing parent directories with mode `OWNER_ONLY_MODE`,
    /// then write the new file.
    CreateParents,
}

/// A token file replaces whatever is at its path; a new one first gets its
/// parent directories.
pub fn write_plan(kind: PathKind) -> (r: WritePlan)
    ensures
        r == (if kind == PathKind::Missing {
            WritePlan::CreateParents
        } else {
            WritePlan::Replace
        }),
{
    match kind {
        PathKind::Missing => WritePlan::CreateParents,
        _ => WritePlan::Replace,
    }
}

/// The first step of looking for a reusable session.
#[derive(Debug, Clone, Copy, PartialEq, Eq, Structural)]
pub enum Probe {
    /// A directory squats the token path: remove it; there is no session.
    RemoveDirectory,
    /// Read the token file and judge its contents.
    ReadFile,
    /// There is no token: no session.
    NoSession,
}

/// What to do about the token path, given what it holds.
pub fn session_probe(kind: PathKind) -> (r: Probe)
    ensures
        kind == PathKind::Directory ==> r == Probe::RemoveDirectory,
        kind == PathKind::File ==> r == Probe::ReadFile,
        kind == PathKind::Missing ==> r == Probe::NoSession,
{
    match kind {
        PathKind::Directory => Probe::RemoveDirectory,
        PathKind::File => Probe::ReadFile,
        PathKind::Missing => Probe::NoSession,
    }
}

/// Whether a token file whose contents are `contents` (`None` if it could
/// not be read) lets `terminal` reuse its session at time `now`.
pub open spec fn session_valid(contents: Option<Seq<char>>, tty_name: Seq<char>, tty_uuid: Seq<char>, now: u64) -> bool {
    match contents {
        Some(text) => match parse_token(text) {
            Some(t) => valid_for_reuse(t, tty_name, tty_uuid, now),
            None => false,
        },
        None => false,
    }
}

/// Judges the contents of a token file: unreadable or malformed contents
/// mean that there is no session, never an error.
pub fn session_is_valid(contents: &Option<String>, terminal: &Terminal, now: u64) -> (r: bool)
    ensures
        r == session_valid(
            crate::tty::opt_view(*contents),
            terminal.terminal_name@,
            terminal.terminal_uuid@,
            now,
        ),
{
    match contents {
        Some(text) => match Token::from_text(text.as_str()) {
            Some(token) => token.verify_token(
                terminal.terminal_name.as_str(),
                terminal.terminal_uuid.as_str(),
                now,
            ).is_ok(),
            None => false,
        },
        None => false,
    }
}

} // verus!
