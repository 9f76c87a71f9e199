//! The programs that run bash scripts, shell commands, `sudo` and `which`.
use vstd::prelude::*;
use crate::text::strings_view;
use crate::error::AppError;
use crate::models::shell::{Argument, Cmd};

verus! {

/// The arguments that `Argument` stands for.
pub open spec fn argument_words(a: Argument) -> Seq<Seq<char>> {
    match a {
        Argument::Empty => Seq::empty(),
        Argument::Arg(s) => seq![s@],
        Argument::Args(v) => strings_view(v@),
    }
}

/// Runs commands through the system's programs.
#[derive(Debug)]
pub struct ShellExecutor;

impl ShellExecutor {
    /// Creates a new `ShellExecutor`.
    pub fn new() -> (res: Self) {
        ShellExecutor
    }

    /// The words that run a shell command: `sh -c <command>`; an empty
    /// command is an error.
    pub fn shell_argv(&self, script: &Cmd) -> (res: Result<Vec<String>, AppError>)
        ensures
            script is Empty ==> res matches Err(AppError::EmptyCommand),
            script matches Cmd::Cmd(c) ==> (res matches Ok(v) && strings_view(v@) == seq![
                "sh"@,
                "-c"@,
                c@,
            ]),
    {
        match script {
            Cmd::Empty => Err(AppError::EmptyCommand),
            Cmd::Cmd(c) => {
                let mut v: Vec<String> = Vec::new();
                v.push(String::from_str("sh"));
                v.push(String::from_str("-c"));
                v.push(c.clone());
                assert(strings_view(v@) =~= seq!["sh"@, "-c"@, c@]);
                Ok(v)
            },
        }
    }

    /// The words that run a command with `sudo`: `sudo <command> <args>`;
    /// an empty command is an error.
    pub fn sudo_argv(&self, command: &Cmd, arg: &Argument) -> (res: Result<Vec<String>, AppError>)
        ensures
            command is Empty ==> res matches Err(AppError::EmptyCommand),
            command matches Cmd::Cmd(c) ==> (res matches Ok(v) && strings_view(v@) == seq![
                "sudo"@,
                c@,
            ] + argument_words(*arg)),
    {
        match command {
            Cmd::Empty => Err(AppError::EmptyCommand),
            Cmd::Cmd(c) => {
                let mut v: Vec<String> = Vec::new();
                v.push(String::from_str("sudo"));
                v.push(c.clone());
                let ghost head = strings_view(v@);
                assert(head =~= seq!["sudo"@, c@]);
                match arg {
                    Argument::Empty => {
                        assert(strings_view(v@) =~= head + argument_words(*arg));
                    },
                    Argument::Arg(a) => {
                        v.push(a.clone());
                        assert(strings_view(v@) =~= head + argument_words(*arg));
                    },
                    Argument::Args(args) => {
                        let mut i: usize = 0;
                        while i < args.len()
                            invariant
                                i <= args@.len(),
                                strings_view(v@) == head + strings_view(args@.take(i as int)),
                            decreases args@.len() - i,
                        {
                            let ghost before = strings_view(v@);
                            v.push(args[i].clone());
                            assert(strings_view(v@) =~= before.push(args@[i as int]@));
                            assert(strings_view(args@.take(i + 1)) =~= strings_view(
                                args@.take(i as int),
                            ).push(args@[i as int]@));
                            i = i + 1;
                        }
                        assert(args@.take(args@.len() as int) =~= args@);
                    },
                }
                Ok(v)
            },
        }
    }

    /// The words that look a command up on the path: `which <command>`; an
    /// empty command is an error.
    pub fn which_argv(&self, command: &Cmd) -> (res: Result<Vec<String>, AppError>)
        ensures
            command is Empty ==> res matches Err(AppError::EmptyCommand),
            command matches Cmd::Cmd(c) ==> (res matches Ok(v) && strings_view(v@) == seq![
                "which"@,
                c@,
            ]),
    {
        match command {
            Cmd::Empty => Err(AppError::EmptyCommand),
            Cmd::Cmd(c) => {
                let mut v: Vec<String> = Vec::new();
                v.push(String::from_str("which"));
                v.push(c.clone());
                assert(strings_view(v@) =~= seq!["which"@, c@]);
                Ok(v)
            },
        }
    }

    /// What `which` gives once the lookup has run: nothing where it found
    /// the command, else a `WhichExecutionError` naming the command; an
    /// empty command is an error before any lookup.
    pub fn which_outcome(&self, command: &Cmd, found: bool) -> (res: Result<(), AppError>)
        ensures
            command is Empty ==> res matches Err(AppError::EmptyCommand),
            command is Cmd && found ==> res is Ok,
            !found ==> (command matches Cmd::Cmd(c) ==> (res matches Err(
                AppError::WhichExecutionError(m),
            ) && m@ == c@)),
    {
        match command {
            Cmd::Empty => Err(AppError::EmptyCommand),
            Cmd::Cmd(c) => {
                if found {
                    Ok(())
                } else {
                    Err(AppError::WhichExecutionError(c.clone()))
                }
            },
        }
    }
}

impl Default for ShellExecutor {
    /// An executor; it holds no state.
    fn default() -> (res: Self)
        ensures
            res == ShellExecutor,
    {
        ShellExecutor::new()
    }
}

} // verus!
