//! Shell commands and their arguments.
use vstd::prelude::*;

verus! {

/// A shell command.
#[derive(Clone, Debug)]
pub enum Cmd {
    /// An empty command.
    Empty,
    /// A non-empty command.
    Cmd(String),
}

/// Command arguments.
#[derive(Clone, Debug)]
pub enum Argument {
    /// No arguments.
    Empty,
    /// A single argument.
    Arg(String),
    /// Several arguments.
    Args(Vec<String>),
}

/// A program to run and the arguments it is given.
#[derive(Clone, Debug)]
pub struct CommandLine {
    pub program: String,
    pub args: Vec<String>,
}

/// The mathematical value of a command line.
pub struct CommandLineView {
    pub program: Seq<char>,
    pub args: Seq<Seq<char>>,
}

impl View for CommandLine {
    type V = CommandLineView;

    open spec fn view(&self) -> CommandLineView {
        CommandLineView { program: self.program@, args: self.args@.map_values(|a: String| a@) }
    }
}

/// The command line `program args...`.
pub open spec fn command_line(program: Seq<char>, args: Seq<Seq<char>>) -> CommandLineView {
    CommandLineView { program, args }
}

/// The command line running `program` with the arguments `args`.
pub fn make_command(program: &str, args: &[&str]) -> (res: CommandLine)
    ensures
        res@ == command_line(program@, args@.map_values(|a: &str| a@)),
{
    let mut out: Vec<String> = Vec::new();
    let mut i: usize = 0;
    while i < args.len()
        invariant
            i <= args@.len(),
            out@.len() == i,
            forall|j: int| 0 <= j < i ==> #[trigger] out@[j]@ == args@[j]@,
        decreases args@.len() - i,
    {
        out.push(String::from_str(args[i]));
        i = i + 1;
    }
    let res = CommandLine { program: String::from_str(program), args: out };
    assert(res@.args =~= args@.map_values(|a: &str| a@));
    res
}

/// The views of a list of command lines.
pub open spec fn commands_view(v: Seq<CommandLine>) -> Seq<CommandLineView> {
    v.map_values(|c: CommandLine| c@)
}

impl Cmd {
    /// A command holding `s`, empty or not.
    pub fn new(s: &str) -> (res: Self)
        ensures
            res matches Cmd::Cmd(c) && c@ == s@,
    {
        Cmd::Cmd(String::from_str(s))
    }

    /// The empty command for the empty string, else a command holding `s`.
    pub fn from_str(s: &str) -> (res: Self)
        ensures
            s@.len() == 0 ==> res is Empty,
            s@.len() > 0 ==> (res matches Cmd::Cmd(c) && c@ == s@),
    {
        if s.unicode_len() == 0 {
            Cmd::Empty
        } else {
            Cmd::Cmd(String::from_str(s))
        }
    }
}

impl Argument {
    /// No arguments for the empty string, else the single argument `s`.
    pub fn from_str(s: &str) -> (res: Self)
        ensures
            s@.len() == 0 ==> res is Empty,
            s@.len() > 0 ==> (res matches Argument::Arg(a) && a@ == s@),
    {
        if s.unicode_len() == 0 {
            Argument::Empty
        } else {
            Argument::Arg(String::from_str(s))
        }
    }

    /// No arguments for the empty list, else all of `v`.
    pub fn from_strs(v: &[&str]) -> (res: Self)
        ensures
            v@.len() == 0 ==> res is Empty,
            v@.len() > 0 ==> (res matches Argument::Args(a) && a@.len() == v@.len() && forall|i: int|
                0 <= i < v@.len() ==> #[trigger] a@[i]@ == v@[i]@),
    {
        if v.len() == 0 {
            return Argument::Empty;
        }
        let mut out: Vec<String> = Vec::new();
        let mut i: usize = 0;
        while i < v.len()
            invariant
                i <= v@.len(),
                out@.len() == i,
                forall|j: int| 0 <= j < i ==> #[trigger] out@[j]@ == v@[j]@,
            decreases v@.len() - i,
        {
            out.push(String::from_str(v[i]));
            i = i + 1;
        }
        Argument::Args(out)
    }
}

} // verus!
