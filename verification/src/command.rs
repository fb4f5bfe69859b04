//! Command lines of the external processes, and what came of running them.

use vstd::prelude::*;
use vstd::string::*;

verus! {

/// An external process to start: the program, its arguments in order, and
/// whether its standard error stream is discarded.
#[derive(Clone, Debug, PartialEq, Eq)]
pub struct CommandLine {
    pub program: String,
    pub args: Vec<String>,
    pub quiet: bool,
}

/// A command line as mathematical value.
pub struct CommandLineView {
    pub program: Seq<char>,
    pub args: Seq<Seq<char>>,
    pub quiet: bool,
}

impl View for CommandLine {
    type V = CommandLineView;

    open spec fn view(&self) -> CommandLineView {
        CommandLineView {
            program: self.program@,
            args: self.args.deep_view(),
            quiet: self.quiet,
        }
    }
}

impl CommandLine {
    /// A command line that starts `program` with no argument.
    pub fn new(program: &str, quiet: bool) -> (cmd: CommandLine)
        ensures
            cmd@ == (CommandLineView { program: program@, args: Seq::empty(), quiet }),
    {
        let cmd = CommandLine { program: String::from_str(program), args: Vec::new(), quiet };
        assert(cmd.args.deep_view() =~= Seq::empty());
        cmd
    }

    /// Adds one argument at the end.
    pub fn arg(&mut self, value: &str)
        ensures
            final(self)@ == (CommandLineView { args: old(self)@.args.push(value@), ..old(self)@ }),
    {
        let ghost before = self.args.deep_view();
        self.args.push(String::from_str(value));
        assert(self.args.deep_view() =~= before.push(value@));
    }
}

/// What came of starting a command.
#[derive(Clone, Debug, PartialEq, Eq)]
pub enum RunResult {
    /// The process ran to its end. `code` is its exit code, `None` where it was
    /// ended from outside; `status` describes the ending in words.
    Exited { code: Option<i32>, status: String },
    /// The process could not be started.
    NotStarted { reason: String },
}

impl RunResult {
    /// A process succeeded when it ran to its end and returned the exit code 0.
    pub open spec fn succeeded(self) -> bool {
        self matches RunResult::Exited { code: Some(c), .. } && c == 0
    }

    /// The words that describe the ending: the status of a process that ran,
    /// the reason why one could not be started.
    pub open spec fn cause_text(self) -> Seq<char> {
        match self {
            RunResult::Exited { status, .. } => status@,
            RunResult::NotStarted { reason } => reason@,
        }
    }

    /// Whether the process ran to its end with the exit code 0.
    pub fn success(&self) -> (ok: bool)
        ensures
            ok == self.succeeded(),
    {
        match self {
            RunResult::Exited { code: Some(c), .. } => *c == 0,
            _ => false,
        }
    }

    /// The words that describe the ending.
    pub fn cause(&self) -> (text: String)
        ensures
            text@ == self.cause_text(),
    {
        match self {
            RunResult::Exited { status, .. } => status.clone(),
            RunResult::NotStarted { reason } => reason.clone(),
        }
    }
}

} // verus!
