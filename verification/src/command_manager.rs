//! Command lines and what running one gives.

use vstd::prelude::*;
use vstd::string::*;
use crate::error::AtiumError;

verus! {

/// The words of a list of strings.
pub open spec fn words(v: Seq<String>) -> Seq<Seq<char>> {
    Seq::new(v.len(), |i: int| v[i]@)
}

/// A program with the arguments to run it with.
#[derive(Clone, Debug, PartialEq, Eq)]
pub struct CommandLine {
    pub program: String,
    pub args: Vec<String>,
}

/// What a process left behind when it ended.
#[derive(Clone, Debug, PartialEq, Eq)]
pub struct CommandOutput {
    /// Whether the exit status was zero.
    pub success: bool,
    pub stdout: Vec<u8>,
    pub stderr: Vec<u8>,
}

/// What became of an attempt to run a command line.
#[derive(Clone, Debug, PartialEq, Eq)]
pub enum Launch {
    /// The process could not be started.
    NotStarted,
    /// The process ran to its end.
    Exited(CommandOutput),
}

/// A program that has been seen to start.
#[derive(Clone, Debug, PartialEq, Eq)]
pub struct CommandManager {
    program: String,
}

impl CommandLine {
    /// The program and the arguments as plain text.
    pub open spec fn view(self) -> (Seq<char>, Seq<Seq<char>>) {
        (self.program@, words(self.args@))
    }
}

impl CommandManager {
    /// The program this manager runs.
    pub closed spec fn program(self) -> Seq<char> {
        self.program@
    }

    /// The command line that shows whether `program` can be started.
    pub fn probe(program: &str, args: Vec<String>) -> (line: CommandLine)
        ensures
            line@ == (program@, words(args@)),
    {
        CommandLine { program: String::from_str(program), args }
    }

    /// A manager for `program`, given what the probe gave. The program is
    /// accepted if and only if the probe started; how it ended is not asked.
    pub fn new(program: &str, probe: &Launch) -> (r: Result<CommandManager, AtiumError>)
        ensures
            probe is Exited <==> r is Ok,
            r matches Ok(m) ==> m.program() == program@,
            r matches Err(e) ==> e is CommandError && e.text() == "Could not execute command"@,
    {
        match probe {
            Launch::Exited(_) => Ok(CommandManager { program: String::from_str(program) }),
            Launch::NotStarted => Err(
                AtiumError::CommandError(String::from_str("Could not execute command")),
            ),
        }
    }

    /// The command line that runs the program with `args`.
    pub fn execute_with_args(&self, args: Vec<String>) -> (line: CommandLine)
        ensures
            line@ == (self.program(), words(args@)),
    {
        CommandLine { program: self.program.clone(), args }
    }
}

} // verus!
