//! The command to run: a program, its arguments, and how both are rendered.

use vstd::prelude::*;
use vstd::string::*;
use crate::quoting::{join_words, shell_join, shell_split, word_views};

verus! {

/// What a process configuration says about the command line: the program and
/// the arguments, in the order in which they were added.
#[derive(Debug)]
pub struct CommandLine {
    program: String,
    args: Vec<String>,
}

/// The mathematical value of a [`CommandLine`].
pub struct CommandLineView {
    pub program: Seq<char>,
    pub args: Seq<Seq<char>>,
}

impl CommandLineView {
    /// A program without arguments.
    pub open spec fn start(program: Seq<char>) -> CommandLineView {
        CommandLineView { program, args: Seq::empty() }
    }

    /// The same command line with arguments added at its end.
    pub open spec fn with_args(self, more: Seq<Seq<char>>) -> CommandLineView {
        CommandLineView { program: self.program, args: self.args + more }
    }

    /// The program followed by the arguments: the words of the command line.
    pub open spec fn words(self) -> Seq<Seq<char>> {
        seq![self.program] + self.args
    }

    /// The shell-quoted command line.
    pub open spec fn shell_words(self) -> Seq<char> {
        shell_join(self.words())
    }

    /// The shell-quoted command line between two backticks.
    pub open spec fn display(self) -> Seq<char> {
        backticked(self.shell_words())
    }
}

/// A text between two backticks.
pub open spec fn backticked(line: Seq<char>) -> Seq<char> {
    "`"@ + line + "`"@
}

/// Puts a shell-quoted command line between two backticks, as it is shown to
/// people.
pub fn display_line(line: &str) -> (text: String)
    ensures
        text@ == backticked(line@),
{
    let mut text = String::from_str("`");
    text.append(line);
    text.append("`");
    text
}

impl View for CommandLine {
    type V = CommandLineView;

    closed spec fn view(&self) -> CommandLineView {
        CommandLineView { program: self.program@, args: word_views(self.args@) }
    }
}

/// The texts of a slice of string slices.
pub open spec fn slice_views(args: Seq<&str>) -> Seq<Seq<char>> {
    args.map_values(|a: &str| a@)
}

impl CommandLine {
    /// A command line that names a program and has no arguments yet.
    pub fn new(program: &str) -> (line: CommandLine)
        ensures
            line@ == CommandLineView::start(program@),
    {
        let line = CommandLine { program: program.to_owned(), args: Vec::new() };
        assert(line@.args =~= Seq::empty());
        line
    }

    /// Adds one argument at the end.
    pub fn arg(&mut self, arg: &str)
        ensures
            final(self)@ == old(self)@.with_args(seq![arg@]),
    {
        self.args.push(arg.to_owned());
        assert(self@.args =~= old(self)@.args + seq![arg@]);
    }

    /// Adds arguments at the end, in their order.
    pub fn args(&mut self, args: &[&str])
        ensures
            final(self)@ == old(self)@.with_args(slice_views(args@)),
    {
        let mut i: usize = 0;
        while i < args.len()
            invariant
                i <= args.len(),
                self@ == old(self)@.with_args(slice_views(args@.take(i as int))),
            decreases args.len() - i,
        {
            let ghost before = self@;
            self.arg(args[i]);
            assert(slice_views(args@.take(i as int)) + seq![args[i as int]@] =~= slice_views(
                args@.take(i + 1),
            ));
            assert(before.args + seq![args[i as int]@] =~= old(self)@.args + slice_views(
                args@.take(i + 1),
            ));
            i += 1;
        }
        assert(args@.take(i as int) =~= args@);
    }

    /// The program.
    pub fn get_program(&self) -> (program: &str)
        ensures
            program@ == self@.program,
    {
        self.program.as_str()
    }

    /// The number of arguments.
    pub fn args_len(&self) -> (n: usize)
        ensures
            n == self@.args.len(),
    {
        self.args.len()
    }

    /// The argument at a position, or `None` past the last one.
    pub fn get_arg(&self, index: usize) -> (arg: Option<&str>)
        ensures
            match arg {
                Some(a) => index < self@.args.len() && a@ == self@.args[index as int],
                None => index >= self@.args.len(),
            },
    {
        if index < self.args.len() {
            Some(self.args[index].as_str())
        } else {
            None
        }
    }

    /// The program and the arguments as one vector of words.
    pub fn words(&self) -> (words: Vec<String>)
        ensures
            word_views(words@) == self@.words(),
    {
        let mut words: Vec<String> = Vec::new();
        words.push(self.program.clone());
        let mut i: usize = 0;
        while i < self.args.len()
            invariant
                i <= self.args.len(),
                word_views(words@) == seq![self.program@] + word_views(self.args@.take(i as int)),
            decreases self.args.len() - i,
        {
            let ghost before = words@;
            words.push(self.args[i].clone());
            assert(word_views(words@) =~= word_views(before).push(self.args[i as int]@));
            assert(word_views(self.args@.take(i + 1)) =~= word_views(
                self.args@.take(i as int),
            ).push(self.args[i as int]@));
            i += 1;
        }
        assert(self.args@.take(i as int) =~= self.args@);
        words
    }

    /// The shell-quoted command line: each word quoted where a shell would
    /// otherwise read it differently, with single spaces between the words.
    ///
    /// A shell-word tokenizer reads back from it the program and then the
    /// arguments in their order, each unchanged.
    pub fn shell_words(&self) -> (line: String)
        ensures
            line@ == self@.shell_words(),
            shell_split(line@) == Some(self@.words()),
    {
        let words = self.words();
        join_words(&words)
    }
}

} // verus!
