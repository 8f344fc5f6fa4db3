//! The command data handed to the program launcher.

use vstd::prelude::*;

use crate::command::{Command, CommandError};

verus! {

/// A command split into its program and the program's arguments.
pub struct CmdData<'a> {
    /// Name of the program.
    pub program: String,
    /// Arguments of the program.
    pub args: Vec<&'a str>,
}

impl<'a> CmdData<'a> {
    /// Splits a command line: the first word is the program, the rest its arguments.
    pub fn new(command: Vec<&'a str>) -> (r: Result<Self, CommandError>)
        ensures
            command@.len() == 0 <==> r is Err,
            r is Err ==> r == Err::<CmdData, CommandError>(CommandError::Empty),
            r matches Ok(c) ==> c.program@ == command@[0]@ && c.args@ == command@.drop_first(),
    {
        let c = Command::new(command)?;
        Ok(CmdData { program: c.program, args: c.args })
    }
}

} // verus!
