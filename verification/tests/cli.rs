use widots::presentation::cli::{
    Args, BrewCommands, CliError, Commands, FishCommands, VSCodeCommands,
};

const APP_NAME: &str = "widots";

#[test]
fn test_args_parsing() {
    let args = Args::try_parse_from(&[APP_NAME, "-v", "link", "/src"]).unwrap();
    assert_eq!(args.verbose, 1);

    let args = Args::try_parse_from(&[APP_NAME, "-vv", "link", "/src"]).unwrap();
    assert_eq!(args.verbose, 2);

    let args = Args::try_parse_from(&[APP_NAME, "link", "/src"]).unwrap();
    assert_eq!(args.verbose, 0);
}

#[test]
fn parses_link_with_test_flag() {
    let args = Args::try_parse_from(&[APP_NAME, "link", "/tmp/dotfiles", "--test"]).unwrap();
    match args.command {
        Commands::Link(a) => {
            assert_eq!(a.source_path, "/tmp/dotfiles");
            assert!(a.test);
        }
        other => panic!("unexpected command: {:?}", other),
    }
    let args = Args::try_parse_from(&[APP_NAME, "link", "-t", "/tmp/dotfiles"]).unwrap();
    match args.command {
        Commands::Link(a) => assert!(a.test),
        other => panic!("unexpected command: {:?}", other),
    }
}

#[test]
fn verbose_counts_everywhere_before_the_marker() {
    let args = Args::try_parse_from(&[APP_NAME, "-v", "link", "-vt", "/src", "--verbose"]).unwrap();
    assert_eq!(args.verbose, 3);
    let args = Args::try_parse_from(&[APP_NAME, "link", "--", "-v"]).unwrap();
    assert_eq!(args.verbose, 0);
    match args.command {
        Commands::Link(a) => assert_eq!(a.source_path, "-v"),
        other => panic!("unexpected command: {:?}", other),
    }
}

#[test]
fn parses_load_with_default_config() {
    let args = Args::try_parse_from(&[APP_NAME, "load"]).unwrap();
    match args.command {
        Commands::Load(a) => {
            assert_eq!(a.config_toml, "~/.config/widots/config.toml");
            assert!(!a.test);
        }
        other => panic!("unexpected command: {:?}", other),
    }
    let args = Args::try_parse_from(&[APP_NAME, "load", "my.toml", "-t"]).unwrap();
    match args.command {
        Commands::Load(a) => {
            assert_eq!(a.config_toml, "my.toml");
            assert!(a.test);
        }
        other => panic!("unexpected command: {:?}", other),
    }
}

#[test]
fn parses_subcommands() {
    let cases: [(&str, &str); 9] = [
        ("brew", "install"),
        ("brew", "import"),
        ("brew", "export"),
        ("fish", "install"),
        ("fish", "default"),
        ("fish", "fisher"),
        ("vscode", "export"),
        ("vscode", "import"),
        ("vscode", "code"),
    ];
    for (cmd, sub) in cases {
        let args = Args::try_parse_from(&[APP_NAME, cmd, sub]).unwrap();
        match (cmd, sub, args.command) {
            ("brew", "install", Commands::Brew(a)) => assert_eq!(a.command, BrewCommands::Install),
            ("brew", "import", Commands::Brew(a)) => assert_eq!(a.command, BrewCommands::Import),
            ("brew", "export", Commands::Brew(a)) => assert_eq!(a.command, BrewCommands::Export),
            ("fish", "install", Commands::Fish(a)) => assert_eq!(a.command, FishCommands::Install),
            ("fish", "default", Commands::Fish(a)) => {
                assert_eq!(a.command, FishCommands::SetDefault)
            }
            ("fish", "fisher", Commands::Fish(a)) => {
                assert_eq!(a.command, FishCommands::InstallFisher)
            }
            ("vscode", "export", Commands::Vscode(a)) => {
                assert_eq!(a.command, VSCodeCommands::ExportExtensions)
            }
            ("vscode", "import", Commands::Vscode(a)) => {
                assert_eq!(a.command, VSCodeCommands::ImportExtensions)
            }
            ("vscode", "code", Commands::Vscode(a)) => {
                assert_eq!(a.command, VSCodeCommands::EnsureCodeCommand)
            }
            (c, s, other) => panic!("{} {} parsed as {:?}", c, s, other),
        }
    }
    let args = Args::try_parse_from(&[APP_NAME, "deploy"]).unwrap();
    assert!(matches!(args.command, Commands::Deploy));
    let args = Args::try_parse_from(&[APP_NAME, "materialize", "/tmp/out"]).unwrap();
    match args.command {
        Commands::Materialize(a) => assert_eq!(a.target, "/tmp/out"),
        other => panic!("unexpected command: {:?}", other),
    }
}

#[test]
fn refuses_bad_command_lines() {
    assert_eq!(
        Args::try_parse_from(&[APP_NAME]).unwrap_err(),
        CliError::MissingSubcommand
    );
    assert_eq!(
        Args::try_parse_from(&[APP_NAME, "-v"]).unwrap_err(),
        CliError::MissingSubcommand
    );
    assert_eq!(
        Args::try_parse_from(&[APP_NAME, "frobnicate"]).unwrap_err(),
        CliError::UnknownSubcommand
    );
    assert_eq!(
        Args::try_parse_from(&[APP_NAME, "-x", "link", "/src"]).unwrap_err(),
        CliError::UnknownOption
    );
    assert_eq!(
        Args::try_parse_from(&[APP_NAME, "-t", "link", "/src"]).unwrap_err(),
        CliError::UnknownOption
    );
    assert_eq!(
        Args::try_parse_from(&[APP_NAME, "deploy", "--test"]).unwrap_err(),
        CliError::UnknownOption
    );
    assert_eq!(
        Args::try_parse_from(&[APP_NAME, "link"]).unwrap_err(),
        CliError::MissingArgument
    );
    assert_eq!(
        Args::try_parse_from(&[APP_NAME, "link", "a", "b"]).unwrap_err(),
        CliError::UnexpectedArgument
    );
    assert_eq!(
        Args::try_parse_from(&[APP_NAME, "brew"]).unwrap_err(),
        CliError::MissingSubcommand
    );
    assert_eq!(
        Args::try_parse_from(&[APP_NAME, "fish", "swim"]).unwrap_err(),
        CliError::UnknownSubcommand
    );
    assert_eq!(
        Args::try_parse_from(&[APP_NAME, "vscode", "code", "extra"]).unwrap_err(),
        CliError::UnexpectedArgument
    );
}

#[test]
fn link_accepts_any_path_that_is_no_option() {
    for path in ["/src", "-", "", "dir with spaces", "ünïcode/päth", "~/dots"] {
        let args = Args::try_parse_from(&[APP_NAME, "link", path]).unwrap();
        assert_eq!(args.verbose, 0);
        match args.command {
            Commands::Link(a) => {
                assert_eq!(a.source_path, path);
                assert!(!a.test);
            }
            other => panic!("unexpected command: {:?}", other),
        }
    }
}

#[test]
fn flags_may_be_given_once() {
    assert_eq!(
        Args::try_parse_from(&[APP_NAME, "link", "-t", "/src", "--test"]).unwrap_err(),
        CliError::ArgumentConflict
    );
    assert_eq!(
        Args::try_parse_from(&[APP_NAME, "load", "-tt"]).unwrap_err(),
        CliError::ArgumentConflict
    );
    // `-v` is counted instead.
    assert_eq!(Args::try_parse_from(&[APP_NAME, "-vvv", "link", "-v", "/src"]).unwrap().verbose, 4);
}

#[test]
fn help_and_version_requests() {
    assert_eq!(Args::try_parse_from(&[APP_NAME, "--help"]).unwrap_err(), CliError::DisplayHelp);
    assert_eq!(Args::try_parse_from(&[APP_NAME, "-h"]).unwrap_err(), CliError::DisplayHelp);
    assert_eq!(Args::try_parse_from(&[APP_NAME, "help"]).unwrap_err(), CliError::DisplayHelp);
    assert_eq!(Args::try_parse_from(&[APP_NAME, "-vh", "link"]).unwrap_err(), CliError::DisplayHelp);
    assert_eq!(Args::try_parse_from(&[APP_NAME, "link", "--help"]).unwrap_err(), CliError::DisplayHelp);
    assert_eq!(Args::try_parse_from(&[APP_NAME, "-V"]).unwrap_err(), CliError::DisplayVersion);
    assert_eq!(Args::try_parse_from(&[APP_NAME, "--version", "link", "/x"]).unwrap_err(), CliError::DisplayVersion);
    // The first option that asks for something, or is unknown, decides.
    assert_eq!(Args::try_parse_from(&[APP_NAME, "-x", "--help"]).unwrap_err(), CliError::UnknownOption);
    assert_eq!(Args::try_parse_from(&[APP_NAME, "--help", "-x"]).unwrap_err(), CliError::DisplayHelp);
    assert_eq!(Args::try_parse_from(&[APP_NAME, "link", "-V", "/x"]).unwrap_err(), CliError::UnknownOption);
    assert_eq!(Args::try_parse_from(&[APP_NAME, "link", "--", "--help"]).unwrap().verbose, 0);
}
