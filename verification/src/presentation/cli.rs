//! The command line: `widots [-v...] <command> [options] [arguments]`.
//!
//! `-v`/`--verbose` may be given anywhere before the first `--` and is
//! counted; `link` and `load` take `-t`/`--test`, at most once; short
//! options cluster (`-vt`). The commands are `link <SOURCE>`,
//! `materialize <TARGET>`, `load [CONFIG]`, `deploy`,
//! `brew install|import|export`, `fish install|default|fisher` and
//! `vscode export|import|code`. `-h`/`--help` (anywhere) and `-V`/`--version`
//! (before the command) ask for help or the version, as does the command
//! `help`; the first option that asks for something, or is not known,
//! decides.
use vstd::prelude::*;
pub use crate::argv::CliError;
use crate::argv::{
    classify, classify_words, count_option, count_option_capped, event_error, event_error_exec,
    first_event, first_option_event, first_positional, first_positional_index,
    lemma_positionals_nonempty, positional_words, positionals, sub_choice, tokens_view, verbosity,
    words_after_program, OptionEvent, TokenView,
};
use crate::constants::DEFAULT_CONFIG_TOML;
use crate::text::{str_eq, strs_view};

verus! {

#[derive(Debug, Clone, Copy, PartialEq, Eq, Structural)]
pub enum BrewCommands {
    Install,
    Import,
    Export,
}

#[derive(Debug, Clone, Copy, PartialEq, Eq, Structural)]
pub enum FishCommands {
    Install,
    SetDefault,
    InstallFisher,
}

#[derive(Debug, Clone, Copy, PartialEq, Eq, Structural)]
pub enum VSCodeCommands {
    ExportExtensions,
    ImportExtensions,
    EnsureCodeCommand,
}

/// `link <SOURCE> [-t]`: link the dotfiles of SOURCE into the home
/// directory, or into its test directory.
#[derive(Debug, Clone)]
pub struct LinkArgs {
    pub source_path: String,
    pub test: bool,
}

/// `materialize <TARGET>`: turn the symlinks under TARGET into files.
#[derive(Debug, Clone)]
pub struct MaterializeArgs {
    pub target: String,
}

/// `load [CONFIG] [-t]`: load a configuration file.
#[derive(Debug, Clone)]
pub struct LoadArgs {
    pub config_toml: String,
    pub test: bool,
}

#[derive(Debug, Clone)]
pub struct BrewArgs {
    pub command: BrewCommands,
}

#[derive(Debug, Clone)]
pub struct FishArgs {
    pub command: FishCommands,
}

#[derive(Debug, Clone)]
pub struct VSCodeArgs {
    pub command: VSCodeCommands,
}

/// The command to run.
#[derive(Debug, Clone)]
pub enum Commands {
    Link(LinkArgs),
    Materialize(MaterializeArgs),
    Load(LoadArgs),
    Deploy,
    Brew(BrewArgs),
    Fish(FishArgs),
    Vscode(VSCodeArgs),
}

/// A command line: the command and how verbose the log is.
#[derive(Debug, Clone)]
pub struct Args {
    pub command: Commands,
    pub verbose: u8,
}

/// The mathematical value of a command.
pub enum CommandView {
    Link { source_path: Seq<char>, test: bool },
    Materialize { target: Seq<char> },
    Load { config_toml: Seq<char>, test: bool },
    Deploy,
    Brew(BrewCommands),
    Fish(FishCommands),
    Vscode(VSCodeCommands),
}

pub struct ArgsView {
    pub command: CommandView,
    pub verbose: u8,
}

impl View for Args {
    type V = ArgsView;

    open spec fn view(&self) -> ArgsView {
        ArgsView {
            command: match self.command {
                Commands::Link(a) => CommandView::Link { source_path: a.source_path@, test: a.test },
                Commands::Materialize(a) => CommandView::Materialize { target: a.target@ },
                Commands::Load(a) => CommandView::Load { config_toml: a.config_toml@, test: a.test },
                Commands::Deploy => CommandView::Deploy,
                Commands::Brew(a) => CommandView::Brew(a.command),
                Commands::Fish(a) => CommandView::Fish(a.command),
                Commands::Vscode(a) => CommandView::Vscode(a.command),
            },
            verbose: self.verbose,
        }
    }
}

pub open spec fn parse_result_view(r: Result<Args, CliError>) -> Result<ArgsView, CliError> {
    match r {
        Ok(a) => Ok(a@),
        Err(e) => Err(e),
    }
}

/// Whether `-t` is given.
pub open spec fn test_flag(ts: Seq<TokenView>) -> bool {
    count_option(ts, 't', "test"@) > 0
}

pub open spec fn pick_brew(w: Seq<char>) -> Option<BrewCommands> {
    if w == "install"@ {
        Some(BrewCommands::Install)
    } else if w == "import"@ {
        Some(BrewCommands::Import)
    } else if w == "export"@ {
        Some(BrewCommands::Export)
    } else {
        None
    }
}

pub open spec fn pick_fish(w: Seq<char>) -> Option<FishCommands> {
    if w == "install"@ {
        Some(FishCommands::Install)
    } else if w == "default"@ {
        Some(FishCommands::SetDefault)
    } else if w == "fisher"@ {
        Some(FishCommands::InstallFisher)
    } else {
        None
    }
}

pub open spec fn pick_vscode(w: Seq<char>) -> Option<VSCodeCommands> {
    if w == "export"@ {
        Some(VSCodeCommands::ExportExtensions)
    } else if w == "import"@ {
        Some(VSCodeCommands::ImportExtensions)
    } else if w == "code"@ {
        Some(VSCodeCommands::EnsureCodeCommand)
    } else {
        None
    }
}

/// The options a command takes after its name: `-v` everywhere, and `-t`
/// for `link` and `load`.
pub open spec fn command_letters(name: Seq<char>) -> Seq<char> {
    if name == "link"@ || name == "load"@ {
        seq!['v', 't']
    } else {
        seq!['v']
    }
}

pub open spec fn command_names(name: Seq<char>) -> Seq<Seq<char>> {
    if name == "link"@ || name == "load"@ {
        seq!["verbose"@, "test"@]
    } else {
        seq!["verbose"@]
    }
}

/// What a command line means, for the command `name` with the arguments
/// `args` after it, once the options are known to be valid.
pub open spec fn spec_command(name: Seq<char>, args: Seq<Seq<char>>, test: bool) -> Result<
    CommandView,
    CliError,
> {
    if name == "link"@ {
        if args.len() == 0 {
            Err(CliError::MissingArgument)
        } else if args.len() > 1 {
            Err(CliError::UnexpectedArgument)
        } else {
            Ok(CommandView::Link { source_path: args[0], test: test })
        }
    } else if name == "materialize"@ {
        if args.len() == 0 {
            Err(CliError::MissingArgument)
        } else if args.len() > 1 {
            Err(CliError::UnexpectedArgument)
        } else {
            Ok(CommandView::Materialize { target: args[0] })
        }
    } else if name == "load"@ {
        if args.len() > 1 {
            Err(CliError::UnexpectedArgument)
        } else {
            Ok(
                CommandView::Load {
                    config_toml: if args.len() == 0 {
                        DEFAULT_CONFIG_TOML@
                    } else {
                        args[0]
                    },
                    test: test,
                },
            )
        }
    } else if name == "deploy"@ {
        if args.len() > 0 {
            Err(CliError::UnexpectedArgument)
        } else {
            Ok(CommandView::Deploy)
        }
    } else if name == "brew"@ {
        match sub_choice(args, |w: Seq<char>| pick_brew(w)) {
            Ok(c) => Ok(CommandView::Brew(c)),
            Err(e) => Err(e),
        }
    } else if name == "fish"@ {
        match sub_choice(args, |w: Seq<char>| pick_fish(w)) {
            Ok(c) => Ok(CommandView::Fish(c)),
            Err(e) => Err(e),
        }
    } else if name == "vscode"@ {
        match sub_choice(args, |w: Seq<char>| pick_vscode(w)) {
            Ok(c) => Ok(CommandView::Vscode(c)),
            Err(e) => Err(e),
        }
    } else {
        Err(CliError::UnknownSubcommand)
    }
}

pub open spec fn is_command_name(name: Seq<char>) -> bool {
    name == "link"@ || name == "materialize"@ || name == "load"@ || name == "deploy"@ || name
        == "brew"@ || name == "fish"@ || name == "vscode"@
}

/// What a command line means. Before the command only `-v` may be given;
/// an unknown command is refused before its options are looked at.
pub open spec fn spec_parse(argv: Seq<Seq<char>>) -> Result<ArgsView, CliError> {
    let ts = classify_words(words_after_program(argv));
    match first_positional(ts) {
        None => {
            let e = first_event(ts, 0, ts.len() as int, seq!['v'], seq!["verbose"@], true);
            if e == OptionEvent::Fine {
                Err(CliError::MissingSubcommand)
            } else {
                Err(event_error(e))
            }
        },
        Some(k) => {
            let e0 = first_event(ts, 0, k, seq!['v'], seq!["verbose"@], true);
            let ps = positionals(ts);
            let name = ps[0];
            if e0 != OptionEvent::Fine {
                Err(event_error(e0))
            } else if name == "help"@ {
                Err(CliError::DisplayHelp)
            } else if !is_command_name(name) {
                Err(CliError::UnknownSubcommand)
            } else {
                let e1 = first_event(
                    ts,
                    k + 1,
                    ts.len() as int,
                    command_letters(name),
                    command_names(name),
                    false,
                );
                if e1 != OptionEvent::Fine {
                    Err(event_error(e1))
                } else if count_option(ts, 't', "test"@) > 1 {
                    Err(CliError::ArgumentConflict)
                } else {
                    match spec_command(name, ps.skip(1), test_flag(ts)) {
                        Ok(c) => Ok(ArgsView { command: c, verbose: verbosity(ts) }),
                        Err(e) => Err(e),
                    }
                }
            }
        },
    }
}

impl Args {
    /// Reads a command line (the program name first).
    pub fn try_parse_from(argv: &[&str]) -> (res: Result<Args, CliError>)
        ensures
            parse_result_view(res) == spec_parse(strs_view(argv@)),
    {
        let ghost av = strs_view(argv@);
        let rest: &[&str] = if argv.len() == 0 {
            argv
        } else {
            vstd::slice::slice_subrange(argv, 1, argv.len())
        };
        assert(strs_view(rest@) =~= words_after_program(av));
        let ts = classify(rest);
        let ghost tv = tokens_view(ts@);
        assert(tv == classify_words(words_after_program(av)));
        let n = ts.len();
        proof {
            reveal_strlit("v");
            assert("v"@ =~= seq!['v']);
        }
        let top_names: [&str; 1] = ["verbose"];
        assert(strs_view(top_names@) =~= seq!["verbose"@]);
        match first_positional_index(&ts) {
            None => {
                let e = first_option_event(&ts, 0, n, "v", &top_names, true);
                assert(first_positional(tv) is None);
                if e == OptionEvent::Fine {
                    assert(spec_parse(av) == Err::<ArgsView, CliError>(CliError::MissingSubcommand));
                    Err(CliError::MissingSubcommand)
                } else {
                    let err = event_error_exec(e);
                    assert(spec_parse(av) == Err::<ArgsView, CliError>(err));
                    Err(err)
                }
            },
            Some(k) => {
                assert(first_positional(tv) == Some(k as int));
                let e0 = first_option_event(&ts, 0, k, "v", &top_names, true);
                let ps = positional_words(&ts);
                proof {
                    lemma_positionals_nonempty(tv, k as int);
                }
                let name = ps[0].as_str();
                assert(positionals(tv)[0] == name@);
                if e0 != OptionEvent::Fine {
                    let err = event_error_exec(e0);
                    assert(spec_parse(av) == Err::<ArgsView, CliError>(err));
                    return Err(err);
                }
                proof {
                    reveal_strlit("help");
                }
                if str_eq(name, "help") {
                    assert(spec_parse(av) == Err::<ArgsView, CliError>(CliError::DisplayHelp));
                    return Err(CliError::DisplayHelp);
                }
                if !is_command_name_exec(name) {
                    assert(spec_parse(av) == Err::<ArgsView, CliError>(CliError::UnknownSubcommand));
                    return Err(CliError::UnknownSubcommand);
                }
                let takes_test = str_eq(name, "link") || str_eq(name, "load");
                let e1 = if takes_test {
                    proof {
                        reveal_strlit("vt");
                        assert("vt"@ =~= seq!['v', 't']);
                    }
                    let names: [&str; 2] = ["verbose", "test"];
                    assert(strs_view(names@) =~= seq!["verbose"@, "test"@]);
                    first_option_event(&ts, k + 1, n, "vt", &names, false)
                } else {
                    first_option_event(&ts, k + 1, n, "v", &top_names, false)
                };
                assert(e1 == first_event(
                    tv,
                    k + 1,
                    tv.len() as int,
                    command_letters(name@),
                    command_names(name@),
                    false,
                ));
                if e1 != OptionEvent::Fine {
                    let err = event_error_exec(e1);
                    assert(spec_parse(av) == Err::<ArgsView, CliError>(err));
                    return Err(err);
                }
                let verbose = count_option_capped(&ts, 'v', "verbose");
                let tests = count_option_capped(&ts, 't', "test");
                if tests > 1 {
                    assert(spec_parse(av) == Err::<ArgsView, CliError>(CliError::ArgumentConflict));
                    return Err(CliError::ArgumentConflict);
                }
                let test = tests > 0;
                assert(verbose == verbosity(tv));
                assert(test == test_flag(tv));
                match parse_command(name, &ps, test) {
                    Ok(command) => {
                        let res = Args { command, verbose };
                        assert(parse_result_view(Ok(res)) == spec_parse(av));
                        Ok(res)
                    },
                    Err(e) => {
                        assert(spec_parse(av) == Err::<ArgsView, CliError>(e));
                        Err(e)
                    },
                }
            },
        }
    }
}

fn is_command_name_exec(name: &str) -> (res: bool)
    ensures
        res == is_command_name(name@),
{
    str_eq(name, "link") || str_eq(name, "materialize") || str_eq(name, "load") || str_eq(
        name,
        "deploy",
    ) || str_eq(name, "brew") || str_eq(name, "fish") || str_eq(name, "vscode")
}

pub open spec fn command_result_view(r: Result<Commands, CliError>) -> Result<CommandView, CliError> {
    match r {
        Ok(c) => Ok((Args { command: c, verbose: 0 })@.command),
        Err(e) => Err(e),
    }
}

fn pick_brew_exec(w: &str) -> (res: Option<BrewCommands>)
    ensures
        res == pick_brew(w@),
{
    if str_eq(w, "install") {
        Some(BrewCommands::Install)
    } else if str_eq(w, "import") {
        Some(BrewCommands::Import)
    } else if str_eq(w, "export") {
        Some(BrewCommands::Export)
    } else {
        None
    }
}

fn pick_fish_exec(w: &str) -> (res: Option<FishCommands>)
    ensures
        res == pick_fish(w@),
{
    if str_eq(w, "install") {
        Some(FishCommands::Install)
    } else if str_eq(w, "default") {
        Some(FishCommands::SetDefault)
    } else if str_eq(w, "fisher") {
        Some(FishCommands::InstallFisher)
    } else {
        None
    }
}

fn pick_vscode_exec(w: &str) -> (res: Option<VSCodeCommands>)
    ensures
        res == pick_vscode(w@),
{
    if str_eq(w, "export") {
        Some(VSCodeCommands::ExportExtensions)
    } else if str_eq(w, "import") {
        Some(VSCodeCommands::ImportExtensions)
    } else if str_eq(w, "code") {
        Some(VSCodeCommands::EnsureCodeCommand)
    } else {
        None
    }
}

/// The command `name`, given all positional words (the name first).
fn parse_command(name: &str, ps: &Vec<String>, test: bool) -> (res: Result<Commands, CliError>)
    requires
        ps@.len() > 0,
        ps@[0]@ == name@,
    ensures
        command_result_view(res) == spec_command(name@, ps@.map_values(|s: String| s@).skip(1), test),
{
    let ghost args = ps@.map_values(|s: String| s@).skip(1);
    let count = ps.len() - 1;
    assert(args.len() == count);
    if count >= 1 {
        assert(args[0] == ps@[1]@);
    }
    if count >= 1 {
        assert(ps@.map_values(|s: String| s@)[1] == ps@[1]@);
    }
    if str_eq(name, "link") {
        if count == 0 {
            Err(CliError::MissingArgument)
        } else if count > 1 {
            Err(CliError::UnexpectedArgument)
        } else {
            Ok(Commands::Link(LinkArgs { source_path: ps[1].clone(), test }))
        }
    } else if str_eq(name, "materialize") {
        if count == 0 {
            Err(CliError::MissingArgument)
        } else if count > 1 {
            Err(CliError::UnexpectedArgument)
        } else {
            Ok(Commands::Materialize(MaterializeArgs { target: ps[1].clone() }))
        }
    } else if str_eq(name, "load") {
        if count > 1 {
            Err(CliError::UnexpectedArgument)
        } else {
            let config_toml = if count == 0 {
                String::from_str(DEFAULT_CONFIG_TOML)
            } else {
                ps[1].clone()
            };
            Ok(Commands::Load(LoadArgs { config_toml, test }))
        }
    } else if str_eq(name, "deploy") {
        if count > 0 {
            Err(CliError::UnexpectedArgument)
        } else {
            Ok(Commands::Deploy)
        }
    } else if str_eq(name, "brew") {
        if count == 0 {
            return Err(CliError::MissingSubcommand);
        }
        match pick_brew_exec(ps[1].as_str()) {
            None => Err(CliError::UnknownSubcommand),
            Some(c) => if count > 1 {
                Err(CliError::UnexpectedArgument)
            } else {
                Ok(Commands::Brew(BrewArgs { command: c }))
            },
        }
    } else if str_eq(name, "fish") {
        if count == 0 {
            return Err(CliError::MissingSubcommand);
        }
        match pick_fish_exec(ps[1].as_str()) {
            None => Err(CliError::UnknownSubcommand),
            Some(c) => if count > 1 {
                Err(CliError::UnexpectedArgument)
            } else {
                Ok(Commands::Fish(FishArgs { command: c }))
            },
        }
    } else if str_eq(name, "vscode") {
        if count == 0 {
            return Err(CliError::MissingSubcommand);
        }
        match pick_vscode_exec(ps[1].as_str()) {
            None => Err(CliError::UnknownSubcommand),
            Some(c) => if count > 1 {
                Err(CliError::UnexpectedArgument)
            } else {
                Ok(Commands::Vscode(VSCodeArgs { command: c }))
            },
        }
    } else {
        Err(CliError::UnknownSubcommand)
    }
}

/// Every source path that does not read as an option is accepted by
/// `link`: the command line `<program> link <path>` links that path into the
/// home directory, with the default verbosity.
pub proof fn lemma_link_command_accepted(program: Seq<char>, path: Seq<char>)
    requires
        !(path.len() > 1 && path[0] == '-'),
    ensures
        spec_parse(seq![program, "link"@, path]) == Ok::<ArgsView, CliError>(
            ArgsView { command: CommandView::Link { source_path: path, test: false }, verbose: 0 },
        ),
{
    reveal_strlit("link");
    let argv = seq![program, "link"@, path];
    let words = words_after_program(argv);
    assert(words =~= seq!["link"@, path]);
    assert(words.take(0) =~= Seq::<Seq<char>>::empty());
    assert(words.take(1) =~= seq!["link"@]);
    assert("link"@ != crate::argv::dd()) by {
        assert("link"@.len() == 4);
    }
    assert(path != crate::argv::dd()) by {
        if path == crate::argv::dd() {
            assert(path.len() == 2 && path[0] == '-');
        }
    }
    assert(!words.take(1).contains(crate::argv::dd())) by {
        if words.take(1).contains(crate::argv::dd()) {
            let k = choose|k: int| 0 <= k < words.take(1).len() && words.take(1)[k] == crate::argv::dd();
            assert(words.take(1)[k] == "link"@);
        }
    }
    let ts = classify_words(words);
    assert(ts[0] == TokenView::Positional("link"@));
    assert(ts[1] == TokenView::Positional(path));
    assert(ts =~= seq![TokenView::Positional("link"@), TokenView::Positional(path)]);
    assert(ts.drop_last() =~= seq![TokenView::Positional("link"@)]);
    let t1 = ts.drop_last();
    assert(t1.drop_last() =~= Seq::<TokenView>::empty());
    assert(first_positional(Seq::<TokenView>::empty()) is None);
    assert(positionals(Seq::<TokenView>::empty()) =~= Seq::<Seq<char>>::empty());
    assert(count_option(Seq::<TokenView>::empty(), 't', "test"@) == 0);
    assert(count_option(Seq::<TokenView>::empty(), 'v', "verbose"@) == 0);
    assert(t1.last() == TokenView::Positional("link"@));
    assert(first_positional(t1) == Some(0int));
    assert(Seq::<Seq<char>>::empty().push("link"@) =~= seq!["link"@]);
    assert(first_positional(ts) == Some(0int));
    assert(positionals(ts.drop_last()) =~= seq!["link"@]);
    assert(positionals(ts) =~= seq!["link"@, path]);
    assert(positionals(ts).skip(1) =~= seq![path]);
    assert(count_option(ts.drop_last(), 't', "test"@) == 0);
    assert(count_option(ts, 't', "test"@) == 0);
    assert(count_option(ts.drop_last(), 'v', "verbose"@) == 0);
    assert(count_option(ts, 'v', "verbose"@) == 0);
    assert(first_event(ts, 0, 0, seq!['v'], seq!["verbose"@], true) == OptionEvent::Fine);
    assert(first_event(ts, 2, 2, command_letters("link"@), command_names("link"@), false)
        == OptionEvent::Fine);
    assert(first_event(ts, 1, 2, command_letters("link"@), command_names("link"@), false)
        == OptionEvent::Fine);
    reveal_strlit("help");
    assert("link"@ != "help"@) by {
        assert("link"@[0] != "help"@[0]);
    }
}

} // verus!
