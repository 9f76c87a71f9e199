//! The command line of the dotfile runner:
//! `widots [-v...] <command> [options] [arguments]`.
//!
//! `-v`/`--verbose` is counted and may only stand before the command.
//! `link <PATH>` and `run [PATH]` take `-f`/`--force` and `-t`/`--test`,
//! each at most once;
//! `materialize <PATH>` and `deploy` take no option; `brew`, `fish` and
//! `vscode` take exactly one action word. `-h`/`--help` (anywhere) and
//! `-V`/`--version` (before the command) ask for help or the version, as
//! does the command `help`.
use vstd::prelude::*;
pub use crate::argv::CliError;
use crate::argv::{
    classify, classify_words, count_option, count_option_capped, event_error, event_error_exec,
    first_event, first_option_event, first_positional, first_positional_index,
    lemma_positionals_nonempty, positional_words, positionals, sub_choice, tokens_view, verbosity,
    words_after_program, OptionEvent, TokenView,
};
use crate::text::{str_eq, strs_view};

verus! {

/// Where `run` reads its script when no path is given.
pub const DEFAULT_RUN_YAML: &'static str = "~/.config/widots/config.yml";

/// `link <PATH> [-f] [-t]`.
#[derive(Debug, Clone)]
pub struct Dotfiles {
    pub path: String,
    pub force: bool,
    pub test: bool,
}

/// `materialize <PATH>`.
#[derive(Debug, Clone)]
pub struct MaterializeDestination {
    pub path: String,
}

/// `run [PATH] [-f] [-t]`.
#[derive(Debug, Clone)]
pub struct RunArgs {
    pub path: String,
    pub force: bool,
    pub test: bool,
}

#[derive(Debug, Clone, Copy, PartialEq, Eq, Structural)]
pub enum BrewAction {
    Install,
    Import,
    Export,
}

#[derive(Debug, Clone, Copy, PartialEq, Eq, Structural)]
pub enum FishAction {
    Install,
    Default,
    Fisher,
}

#[derive(Debug, Clone, Copy, PartialEq, Eq, Structural)]
pub enum VSCodeExtensionAction {
    Import,
    Export,
    Code,
}

#[derive(Debug, Clone)]
pub struct BrewOperation {
    pub action: BrewAction,
}

#[derive(Debug, Clone)]
pub struct FishOperation {
    pub action: FishAction,
}

#[derive(Debug, Clone)]
pub struct VSCodeExtensionOperation {
    pub action: VSCodeExtensionAction,
}

/// The command to run.
#[derive(Debug, Clone)]
pub enum Commands {
    Link(Dotfiles),
    Materialize(MaterializeDestination),
    Run(RunArgs),
    Brew(BrewOperation),
    Deploy,
    Fish(FishOperation),
    Vscode(VSCodeExtensionOperation),
}

/// A command line: the command and how verbose the log is.
#[derive(Debug, Clone)]
pub struct Args {
    pub command: Commands,
    pub verbose: u8,
}

/// The mathematical value of a command.
pub enum CommandView {
    Link { path: Seq<char>, force: bool, test: bool },
    Materialize { path: Seq<char> },
    Run { path: Seq<char>, force: bool, test: bool },
    Brew(BrewAction),
    Deploy,
    Fish(FishAction),
    Vscode(VSCodeExtensionAction),
}

pub struct ArgsView {
    pub command: CommandView,
    pub verbose: u8,
}

pub open spec fn command_view(c: Commands) -> CommandView {
    match c {
        Commands::Link(d) => CommandView::Link { path: d.path@, force: d.force, test: d.test },
        Commands::Materialize(m) => CommandView::Materialize { path: m.path@ },
        Commands::Run(y) => CommandView::Run { path: y.path@, force: y.force, test: y.test },
        Commands::Brew(b) => CommandView::Brew(b.action),
        Commands::Deploy => CommandView::Deploy,
        Commands::Fish(f) => CommandView::Fish(f.action),
        Commands::Vscode(v) => CommandView::Vscode(v.action),
    }
}

impl View for Args {
    type V = ArgsView;

    open spec fn view(&self) -> ArgsView {
        ArgsView { command: command_view(self.command), verbose: self.verbose }
    }
}

pub open spec fn parse_result_view(r: Result<Args, CliError>) -> Result<ArgsView, CliError> {
    match r {
        Ok(a) => Ok(a@),
        Err(e) => Err(e),
    }
}

pub open spec fn pick_brew_action(w: Seq<char>) -> Option<BrewAction> {
    if w == "install"@ {
        Some(BrewAction::Install)
    } else if w == "import"@ {
        Some(BrewAction::Import)
    } else if w == "export"@ {
        Some(BrewAction::Export)
    } else {
        None
    }
}

pub open spec fn pick_fish_action(w: Seq<char>) -> Option<FishAction> {
    if w == "install"@ {
        Some(FishAction::Install)
    } else if w == "default"@ {
        Some(FishAction::Default)
    } else if w == "fisher"@ {
        Some(FishAction::Fisher)
    } else {
        None
    }
}

pub open spec fn pick_vscode_action(w: Seq<char>) -> Option<VSCodeExtensionAction> {
    if w == "import"@ {
        Some(VSCodeExtensionAction::Import)
    } else if w == "export"@ {
        Some(VSCodeExtensionAction::Export)
    } else if w == "code"@ {
        Some(VSCodeExtensionAction::Code)
    } else {
        None
    }
}

/// Whether the command takes `-f` and `-t`.
pub open spec fn takes_flags(name: Seq<char>) -> bool {
    name == "link"@ || name == "run"@
}

pub open spec fn command_letters(name: Seq<char>) -> Seq<char> {
    if takes_flags(name) {
        seq!['f', 't']
    } else {
        Seq::empty()
    }
}

pub open spec fn command_names(name: Seq<char>) -> Seq<Seq<char>> {
    if takes_flags(name) {
        seq!["force"@, "test"@]
    } else {
        Seq::empty()
    }
}

pub open spec fn is_command_name(name: Seq<char>) -> bool {
    name == "link"@ || name == "materialize"@ || name == "run"@ || name == "brew"@ || name
        == "deploy"@ || name == "fish"@ || name == "vscode"@
}

/// What the command `name` with the positional words `args` after it means.
pub open spec fn spec_command(name: Seq<char>, args: Seq<Seq<char>>, force: bool, test: bool) -> Result<
    CommandView,
    CliError,
> {
    if name == "link"@ || name == "materialize"@ {
        if args.len() == 0 {
            Err(CliError::MissingArgument)
        } else if args.len() > 1 {
            Err(CliError::UnexpectedArgument)
        } else if name == "link"@ {
            Ok(CommandView::Link { path: args[0], force: force, test: test })
        } else {
            Ok(CommandView::Materialize { path: args[0] })
        }
    } else if name == "run"@ {
        if args.len() > 1 {
            Err(CliError::UnexpectedArgument)
        } else {
            Ok(
                CommandView::Run {
                    path: if args.len() == 0 {
                        DEFAULT_RUN_YAML@
                    } else {
                        args[0]
                    },
                    force: force,
                    test: test,
                },
            )
        }
    } else if name == "deploy"@ {
        if args.len() > 0 {
            Err(CliError::UnexpectedArgument)
        } else {
            Ok(CommandView::Deploy)
        }
    } else if name == "brew"@ {
        match sub_choice(args, |w: Seq<char>| pick_brew_action(w)) {
            Ok(c) => Ok(CommandView::Brew(c)),
            Err(e) => Err(e),
        }
    } else if name == "fish"@ {
        match sub_choice(args, |w: Seq<char>| pick_fish_action(w)) {
            Ok(c) => Ok(CommandView::Fish(c)),
            Err(e) => Err(e),
        }
    } else {
        match sub_choice(args, |w: Seq<char>| pick_vscode_action(w)) {
            Ok(c) => Ok(CommandView::Vscode(c)),
            Err(e) => Err(e),
        }
    }
}

/// What a command line means. Before the command only `-v` may stand; an
/// unknown command is refused before its options are looked at.
pub open spec fn spec_parse(argv: Seq<Seq<char>>) -> Result<ArgsView, CliError> {
    let ts = classify_words(words_after_program(argv));
    match first_positional(ts) {
        None => {
            let e = first_event(ts, 0, ts.len() as int, seq!['v'], seq!["verbose"@], true);
            if e == OptionEvent::Fine {
                Err(CliError::MissingSubcommand)
            } else {
                Err(event_error(e))
            }
        },
        Some(k) => {
            let e0 = first_event(ts, 0, k, seq!['v'], seq!["verbose"@], true);
            let ps = positionals(ts);
            let name = ps[0];
            if e0 != OptionEvent::Fine {
                Err(event_error(e0))
            } else if name == "help"@ {
                Err(CliError::DisplayHelp)
            } else if !is_command_name(name) {
                Err(CliError::UnknownSubcommand)
            } else {
                let e1 = first_event(
                    ts,
                    k + 1,
                    ts.len() as int,
                    command_letters(name),
                    command_names(name),
                    false,
                );
                if e1 != OptionEvent::Fine {
                    Err(event_error(e1))
                } else if count_option(ts, 'f', "force"@) > 1 || count_option(ts, 't', "test"@) > 1 {
                    Err(CliError::ArgumentConflict)
                } else {
                    match spec_command(
                        name,
                        ps.skip(1),
                        count_option(ts, 'f', "force"@) > 0,
                        count_option(ts, 't', "test"@) > 0,
                    ) {
                        Ok(c) => Ok(ArgsView { command: c, verbose: verbosity(ts) }),
                        Err(e) => Err(e),
                    }
                }
            }
        },
    }
}

fn is_command_name_exec(name: &str) -> (res: bool)
    ensures
        res == is_command_name(name@),
{
    str_eq(name, "link") || str_eq(name, "materialize") || str_eq(name, "run") || str_eq(
        name,
        "brew",
    ) || str_eq(name, "deploy") || str_eq(name, "fish") || str_eq(name, "vscode")
}

fn pick_brew_action_exec(w: &str) -> (res: Option<BrewAction>)
    ensures
        res == pick_brew_action(w@),
{
    if str_eq(w, "install") {
        Some(BrewAction::Install)
    } else if str_eq(w, "import") {
        Some(BrewAction::Import)
    } else if str_eq(w, "export") {
        Some(BrewAction::Export)
    } else {
        None
    }
}

fn pick_fish_action_exec(w: &str) -> (res: Option<FishAction>)
    ensures
        res == pick_fish_action(w@),
{
    if str_eq(w, "install") {
        Some(FishAction::Install)
    } else if str_eq(w, "default") {
        Some(FishAction::Default)
    } else if str_eq(w, "fisher") {
        Some(FishAction::Fisher)
    } else {
        None
    }
}

fn pick_vscode_action_exec(w: &str) -> (res: Option<VSCodeExtensionAction>)
    ensures
        res == pick_vscode_action(w@),
{
    if str_eq(w, "import") {
        Some(VSCodeExtensionAction::Import)
    } else if str_eq(w, "export") {
        Some(VSCodeExtensionAction::Export)
    } else if str_eq(w, "code") {
        Some(VSCodeExtensionAction::Code)
    } else {
        None
    }
}

pub open spec fn command_result_view(r: Result<Commands, CliError>) -> Result<CommandView, CliError> {
    match r {
        Ok(c) => Ok(command_view(c)),
        Err(e) => Err(e),
    }
}

/// The command `name`, given all positional words (the name first).
fn parse_command(name: &str, ps: &Vec<String>, force: bool, test: bool) -> (res: Result<
    Commands,
    CliError,
>)
    requires
        ps@.len() > 0,
        ps@[0]@ == name@,
        is_command_name(name@),
    ensures
        command_result_view(res) == spec_command(
            name@,
            ps@.map_values(|s: String| s@).skip(1),
            force,
            test,
        ),
{
    let ghost args = ps@.map_values(|s: String| s@).skip(1);
    let count = ps.len() - 1;
    assert(args.len() == count);
    if count >= 1 {
        assert(args[0] == ps@[1]@);
    }
    if str_eq(name, "link") || str_eq(name, "materialize") {
        if count == 0 {
            Err(CliError::MissingArgument)
        } else if count > 1 {
            Err(CliError::UnexpectedArgument)
        } else if str_eq(name, "link") {
            Ok(Commands::Link(Dotfiles { path: ps[1].clone(), force, test }))
        } else {
            Ok(Commands::Materialize(MaterializeDestination { path: ps[1].clone() }))
        }
    } else if str_eq(name, "run") {
        if count > 1 {
            Err(CliError::UnexpectedArgument)
        } else {
            let path = if count == 0 {
                String::from_str(DEFAULT_RUN_YAML)
            } else {
                ps[1].clone()
            };
            Ok(Commands::Run(RunArgs { path, force, test }))
        }
    } else if str_eq(name, "deploy") {
        if count > 0 {
            Err(CliError::UnexpectedArgument)
        } else {
            Ok(Commands::Deploy)
        }
    } else if count == 0 {
        Err(CliError::MissingSubcommand)
    } else if str_eq(name, "brew") {
        match pick_brew_action_exec(ps[1].as_str()) {
            None => Err(CliError::UnknownSubcommand),
            Some(action) => if count > 1 {
                Err(CliError::UnexpectedArgument)
            } else {
                Ok(Commands::Brew(BrewOperation { action }))
            },
        }
    } else if str_eq(name, "fish") {
        match pick_fish_action_exec(ps[1].as_str()) {
            None => Err(CliError::UnknownSubcommand),
            Some(action) => if count > 1 {
                Err(CliError::UnexpectedArgument)
            } else {
                Ok(Commands::Fish(FishOperation { action }))
            },
        }
    } else {
        match pick_vscode_action_exec(ps[1].as_str()) {
            None => Err(CliError::UnknownSubcommand),
            Some(action) => if count > 1 {
                Err(CliError::UnexpectedArgument)
            } else {
                Ok(Commands::Vscode(VSCodeExtensionOperation { action }))
            },
        }
    }
}

impl Args {
    /// Reads a command line (the program name first).
    pub fn try_parse_from(argv: &[&str]) -> (res: Result<Args, CliError>)
        ensures
            parse_result_view(res) == spec_parse(strs_view(argv@)),
    {
        let ghost av = strs_view(argv@);
        let rest: &[&str] = if argv.len() == 0 {
            argv
        } else {
            vstd::slice::slice_subrange(argv, 1, argv.len())
        };
        assert(strs_view(rest@) =~= words_after_program(av));
        let ts = classify(rest);
        let ghost tv = tokens_view(ts@);
        assert(tv == classify_words(words_after_program(av)));
        let n = ts.len();
        proof {
            reveal_strlit("v");
            assert("v"@ =~= seq!['v']);
        }
        let top_names: [&str; 1] = ["verbose"];
        assert(strs_view(top_names@) =~= seq!["verbose"@]);
        match first_positional_index(&ts) {
            None => {
                let e = first_option_event(&ts, 0, n, "v", &top_names, true);
                assert(first_positional(tv) is None);
                if e == OptionEvent::Fine {
                    assert(spec_parse(av) == Err::<ArgsView, CliError>(CliError::MissingSubcommand));
                    Err(CliError::MissingSubcommand)
                } else {
                    let err = event_error_exec(e);
                    assert(spec_parse(av) == Err::<ArgsView, CliError>(err));
                    Err(err)
                }
            },
            Some(k) => {
                assert(first_positional(tv) == Some(k as int));
                let e0 = first_option_event(&ts, 0, k, "v", &top_names, true);
                let ps = positional_words(&ts);
                proof {
                    lemma_positionals_nonempty(tv, k as int);
                }
                let name = ps[0].as_str();
                assert(positionals(tv)[0] == name@);
                if e0 != OptionEvent::Fine {
                    let err = event_error_exec(e0);
                    assert(spec_parse(av) == Err::<ArgsView, CliError>(err));
                    return Err(err);
                }
                proof {
                    reveal_strlit("help");
                }
                if str_eq(name, "help") {
                    assert(spec_parse(av) == Err::<ArgsView, CliError>(CliError::DisplayHelp));
                    return Err(CliError::DisplayHelp);
                }
                if !is_command_name_exec(name) {
                    assert(spec_parse(av) == Err::<ArgsView, CliError>(CliError::UnknownSubcommand));
                    return Err(CliError::UnknownSubcommand);
                }
                let e1 = if str_eq(name, "link") || str_eq(name, "run") {
                    proof {
                        reveal_strlit("ft");
                        assert("ft"@ =~= seq!['f', 't']);
                    }
                    let names: [&str; 2] = ["force", "test"];
                    assert(strs_view(names@) =~= seq!["force"@, "test"@]);
                    first_option_event(&ts, k + 1, n, "ft", &names, false)
                } else {
                    proof {
                        reveal_strlit("");
                        assert(""@ =~= Seq::<char>::empty());
                    }
                    let names: [&str; 0] = [];
                    assert(strs_view(names@) =~= Seq::<Seq<char>>::empty());
                    first_option_event(&ts, k + 1, n, "", &names, false)
                };
                assert(e1 == first_event(
                    tv,
                    k + 1,
                    tv.len() as int,
                    command_letters(name@),
                    command_names(name@),
                    false,
                ));
                if e1 != OptionEvent::Fine {
                    let err = event_error_exec(e1);
                    assert(spec_parse(av) == Err::<ArgsView, CliError>(err));
                    return Err(err);
                }
                let verbose = count_option_capped(&ts, 'v', "verbose");
                let forces = count_option_capped(&ts, 'f', "force");
                let tests = count_option_capped(&ts, 't', "test");
                if forces > 1 || tests > 1 {
                    assert(spec_parse(av) == Err::<ArgsView, CliError>(CliError::ArgumentConflict));
                    return Err(CliError::ArgumentConflict);
                }
                let force = forces > 0;
                let test = tests > 0;
                assert(verbose == verbosity(tv));
                match parse_command(name, &ps, force, test) {
                    Ok(command) => {
                        let res = Args { command, verbose };
                        assert(parse_result_view(Ok(res)) == spec_parse(av));
                        Ok(res)
                    },
                    Err(e) => {
                        assert(spec_parse(av) == Err::<ArgsView, CliError>(e));
                        Err(e)
                    },
                }
            },
        }
    }
}

} // verus!
