//! The command that the invoker asked to run.

use vstd::prelude::*;

verus! {

/// Why a command line cannot be used.
#[derive(Debug, Clone, Copy, PartialEq, Eq, Structural)]
pub enum CommandError {
    /// No program was given.
    Empty,
}

/// A command split into its program and the program's arguments.
pub struct Command<'a> {
    /// Name of the program.
    pub program: String,
    /// Arguments of the program.
    pub args: Vec<&'a str>,
}

impl<'a> Command<'a> {
    /// Splits a command line: the first word is the program, the rest its arguments.
    pub fn new(command: Vec<&'a str>) -> (r: Result<Self, CommandError>)
        ensures
            command@.len() == 0 <==> r is Err,
            r is Err ==> r == Err::<Command, CommandError>(CommandError::Empty),
            r matches Ok(c) ==> c.program@ == command@[0]@ && c.args@ == command@.drop_first(),
    {
        let mut command = command;
        if command.len() == 0 {
            return Err(CommandError::Empty);
        }
        let first: &str = command.remove(0);
        let program = first.to_owned();
        Ok(Command { program, args: command })
    }
}

/// All the strings of `s`, one after the other.
pub open spec fn concat_all(s: Seq<&str>) -> Seq<char>
    decreases s.len(),
{
    if s.len() == 0 {
        Seq::empty()
    } else {
        concat_all(s.drop_last()) + s.last()@
    }
}

/// Puts the strings of `data` one after the other, with nothing between them.
pub fn vec_to_string(data: Vec<&str>) -> (r: String)
    ensures
        r@ == concat_all(data@),
{
    let mut buffer = String::new();
    let mut i: usize = 0;
    while i < data.len()
        invariant
            i <= data.len(),
            buffer@ == concat_all(data@.take(i as int)),
        decreases data.len() - i,
    {
        assert(data@.take(i + 1).drop_last() =~= data@.take(i as int));
        buffer.append(data[i]);
        i = i + 1;
    }
    assert(data@.take(i as int) =~= data@);
    buffer
}

/// The shell used when the `SHELL` variable is unset.
pub const DEFAULT_SHELL: &'static str = "/bin/sh";

/// The login shell to start: the user's `SHELL`, else `DEFAULT_SHELL`.
pub fn shell_program(shell_var: Option<String>) -> (r: String)
    ensures
        match shell_var {
            Some(s) => r@ == s@,
            None => r@ == DEFAULT_SHELL@,
        },
{
    match shell_var {
        Some(s) => s,
        None => DEFAULT_SHELL.to_owned(),
    }
}

} // verus!
