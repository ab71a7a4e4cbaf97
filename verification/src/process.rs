//! What is known of a process that was started.
use crate::text::texts;
use vstd::prelude::*;

verus! {

/// What asking for a process came to.
#[derive(Debug, Clone, Copy, PartialEq, Eq, Structural)]
pub enum ChildState {
    /// It is running.
    Running,
    /// It has ended.
    Exited,
    /// The question failed.
    Unknown,
}

impl ChildState {
    /// Whether the process is known to be running.
    pub fn is_running(self) -> (r: bool)
        ensures
            r == (self == ChildState::Running),
    {
        match self {
            ChildState::Running => true,
            _ => false,
        }
    }
}

/// A command of the system.
#[derive(Debug)]
pub struct CommandLine {
    pub program: String,
    pub args: Vec<String>,
}

#[verifier::ext_equal]
pub struct CommandLineView {
    pub program: Seq<char>,
    pub args: Seq<Seq<char>>,
}

impl View for CommandLine {
    type V = CommandLineView;

    open spec fn view(&self) -> CommandLineView {
        CommandLineView { program: self.program@, args: texts(self.args@) }
    }
}

/// In specifications a command line keeps its program and the order of its arguments.
pub proof fn law_command_line_in_specifications(command: CommandLine, i: int)
    ensures
        command@.program == command.program@,
        command@.args.len() == command.args@.len(),
        0 <= i < command.args@.len() ==> command@.args[i] == command.args@[i]@,
{
}

}
