//! Authorization and session handling for a privilege-escalation tool.
//!
//! The library decides whether an invoker may act as another account, keeps
//! track of recent authentications per terminal through session tokens, and
//! drives the interactive authentication protocol as a state machine whose
//! outside effects (password prompts, file access) are performed by the
//! caller.

pub mod auth;
pub mod cmd;
pub mod command;
pub mod config;
pub mod digits;
pub mod flow;
pub mod session;
pub mod store;
pub mod text;
pub mod tty;
pub mod user;
