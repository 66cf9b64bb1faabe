//! The builder that callers hold: a command line behind a display form.

use vstd::prelude::*;
use crate::command::{display_line, slice_views, CommandLine, CommandLineView};
use crate::quoting::shell_split;

verus! {

/// A command that is ready to be run, and that can say which command it is.
#[derive(Debug)]
pub struct EasyCommand {
    inner: CommandLine,
}

impl View for EasyCommand {
    type V = CommandLineView;

    /// A command is seen as the command line that it wraps.
    open spec fn view(&self) -> CommandLineView {
        self.configuration()@
    }
}

impl EasyCommand {
    /// The command line that this command wraps.
    pub closed spec fn configuration(self) -> CommandLine {
        self.inner
    }

    /// A command that runs a program without arguments.
    pub fn new(program: &str) -> (cmd: EasyCommand)
        ensures
            cmd@ == CommandLineView::start(program@),
    {
        EasyCommand { inner: CommandLine::new(program) }
    }

    /// A command whose command line starts as the bare program and is then
    /// handed to `customize`, which gives back the command line to keep.
    pub fn new_with<F: FnOnce(CommandLine) -> CommandLine>(program: &str, customize: F) -> (cmd:
        EasyCommand)
        requires
            forall|line: CommandLine|
                line@ == CommandLineView::start(program@) ==> #[trigger] customize.requires(
                    (line,),
                ),
        ensures
            exists|line: CommandLine|
                line@ == CommandLineView::start(program@) && #[trigger] customize.ensures(
                    (line,),
                    cmd.configuration(),
                ),
    {
        let line = CommandLine::new(program);
        let ghost start = line;
        let cmd = EasyCommand { inner: customize(line) };
        assert(customize.ensures((start,), cmd.configuration()));
        cmd
    }

    /// A command that runs a program with the given arguments, in their order.
    pub fn simple(program: &str, args: &[&str]) -> (cmd: EasyCommand)
        ensures
            cmd@ == CommandLineView::start(program@).with_args(slice_views(args@)),
    {
        let mut line = CommandLine::new(program);
        line.args(args);
        EasyCommand { inner: line }
    }

    /// The command line that this command wraps.
    pub fn command_line(&self) -> (line: &CommandLine)
        ensures
            *line == self.configuration(),
            line@ == self@,
    {
        &self.inner
    }

    /// The shell-quoted command line, from which a shell-word tokenizer reads
    /// back the program and the arguments unchanged.
    pub fn shell_words(&self) -> (line: String)
        ensures
            line@ == self@.shell_words(),
            shell_split(line@) == Some(self@.words()),
    {
        self.inner.shell_words()
    }

    /// The form in which the command is shown to people: the shell-quoted
    /// command line between two backticks.
    pub fn to_string(&self) -> (text: String)
        ensures
            text@ == self@.display(),
    {
        let line = self.inner.shell_words();
        display_line(line.as_str())
    }
}

} // verus!
