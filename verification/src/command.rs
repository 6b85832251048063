//! Commands of the operating system, as plain values.
use vstd::prelude::*;

verus! {

/// A program and the arguments it is run with.
#[derive(Debug)]
pub struct CommandLine {
    /// The name of the program.
    pub program: String,
    /// The arguments, in order.
    pub args: Vec<String>,
}

/// The texts of a [`CommandLine`].
pub struct CommandLineView {
    /// The name of the program.
    pub program: Seq<char>,
    /// The arguments, in order.
    pub args: Seq<Seq<char>>,
}

impl View for CommandLine {
    type V = CommandLineView;

    open spec fn view(&self) -> CommandLineView {
        CommandLineView { program: self.program@, args: self.args.deep_view() }
    }
}

impl CommandLine {
    /// The command that runs `program` without arguments.
    pub fn new(program: &str) -> (command: Self)
        ensures
            command@ == (CommandLineView { program: program@, args: seq![] }),
            command.program@ == program@,
            command.args@.len() == 0,
    {
        let command = CommandLine { program: program.to_owned(), args: Vec::new() };
        assert(command.args.deep_view() == Seq::<Seq<char>>::empty());
        command
    }

    /// The same command with one more argument.
    pub fn arg(self, arg: &str) -> (command: Self)
        ensures
            command@ == (CommandLineView { program: self@.program, args: self@.args.push(arg@) }),
            command.program == self.program,
            command.args@.len() == self.args@.len() + 1,
            command.args@.drop_last() == self.args@,
            command.args@.last()@ == arg@,
    {
        let CommandLine { program, mut args } = self;
        args.push(arg.to_owned());
        let command = CommandLine { program, args };
        assert(command.args.deep_view() == self@.args.push(arg@));
        command
    }
}

/// How a command ended.
#[derive(Debug)]
pub struct ExitReport {
    /// Whether the command reported success.
    pub success: bool,
    /// The status that it ended with, in words.
    pub description: String,
}

/// What a command left behind when it ended.
#[derive(Debug)]
pub struct CommandOutput {
    /// Whether the command reported success.
    pub success: bool,
    /// What it wrote to its standard output.
    pub stdout: Vec<u8>,
    /// What it wrote to its standard error.
    pub stderr: Vec<u8>,
}

/// The view of a command holds its program and each of its arguments, at its
/// place, and nothing else.
pub proof fn commands_show_program_and_arguments(command: CommandLine)
    ensures
        command@.program == command.program@,
        command@.args.len() == command.args@.len(),
        forall|i: int|
            0 <= i < command.args@.len() ==> #[trigger] command@.args[i] == command.args@[i]@,
{
}

} // verus!
