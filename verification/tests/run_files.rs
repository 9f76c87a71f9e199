use widots::cli::{
    Args, BrewAction, CliError, Commands, FishAction, VSCodeExtensionAction, DEFAULT_RUN_YAML,
};
use widots::commands::link::Linker;
use widots::commands::run::Runner;
use widots::error::app_error::AppError;
use widots::models::yaml::{Link, Provision, RunFile};
use widots::system::path::PathExpander;
use widots::system::shell::ShellExecutor;
use widots::utils::yaml::YamlParser;
use widots::utils::yaml_loader::YamlNode;

const RUN_FILE: &str = "
link:
  - location: ~/dotfiles
  - other: ignored
  - location: /opt/more
provision:
  - mode: mac
    script: brew bundle
  - mode: linux
    script: apt-get update
  - mode: mac
  - mode: mac
    script: echo done
";

#[test]
fn parses_a_run_file() {
    let parser = YamlParser::new();
    let run = parser.parse_str(RUN_FILE).unwrap().unwrap();
    let links: Vec<String> = run.link.unwrap().into_iter().map(|l| l.location).collect();
    assert_eq!(links, vec!["~/dotfiles", "/opt/more"]);
    let provisions: Vec<(String, String)> =
        run.provision.unwrap().into_iter().map(|p| (p.mode, p.script)).collect();
    assert_eq!(
        provisions,
        vec![
            ("mac".to_string(), "brew bundle".to_string()),
            ("linux".to_string(), "apt-get update".to_string()),
            ("mac".to_string(), "echo done".to_string()),
        ]
    );
}

#[test]
fn missing_or_malformed_sections_are_none() {
    let parser = YamlParser::new();
    let run = parser.parse_str("link: not-a-list\n").unwrap().unwrap();
    assert!(run.link.is_none());
    assert!(run.provision.is_none());
    let run = parser.parse_str("- 1\n- 2\n").unwrap().unwrap();
    assert!(run.link.is_none());
}

#[test]
fn loader_errors_become_yaml_parse_errors() {
    let parser = YamlParser::new();
    match parser.parse_str("link: [unclosed\n") {
        Some(Err(AppError::YamlParseError(msg))) => assert!(!msg.is_empty()),
        other => panic!("expected a parse error, got {:?}", other),
    }
    // A text with no document at all.
    assert!(parser.parse_str("").is_none());
}

#[test]
fn lookup_reads_string_keys_only() {
    let parser = YamlParser::new();
    let node = YamlNode::Hash(vec![
        (YamlNode::Integer(1), YamlNode::String("one".to_string())),
        (YamlNode::String("location".to_string()), YamlNode::String("/x".to_string())),
    ]);
    assert!(matches!(parser.lookup(&node, "location"), Some(YamlNode::String(s)) if s == "/x"));
    assert!(parser.lookup(&node, "1").is_none());
    assert!(parser.lookup(&YamlNode::Null, "location").is_none());
    assert_eq!(parser.parse_link(&node).map(|l| l.location), Some("/x".to_string()));
    assert!(parser.parse_provision(&node).is_none());
}

fn runner() -> Runner {
    Runner::new(ShellExecutor::new(), YamlParser::new(), Linker::new(PathExpander::new()))
}

#[test]
fn runner_links_everything_and_runs_scripts_for_this_system() {
    let run = RunFile {
        link: Some(vec![Link::new("~/a".to_string()), Link::new("~/b".to_string())]),
        provision: Some(vec![
            Provision::new("mac".to_string(), "one".to_string()),
            Provision::new("linux".to_string(), "two".to_string()),
            Provision::new("mac".to_string(), "three".to_string()),
        ]),
    };
    let plan = runner().plan(&run, "mac");
    assert_eq!(plan.links, vec!["~/a", "~/b"]);
    assert_eq!(plan.scripts, vec!["one", "three"]);
    let plan = runner().plan(&run, "unknown");
    assert!(plan.scripts.is_empty());
    let empty = runner().plan(&RunFile::new(), "linux");
    assert!(empty.links.is_empty() && empty.scripts.is_empty());
}

#[test]
fn run_command_line() {
    let args = Args::try_parse_from(&["widots", "-vv", "run"]).unwrap();
    assert_eq!(args.verbose, 2);
    match args.command {
        Commands::Run(r) => {
            assert_eq!(r.path, DEFAULT_RUN_YAML);
            assert!(!r.force && !r.test);
        }
        other => panic!("unexpected {:?}", other),
    }
    let args = Args::try_parse_from(&["widots", "link", "-ft", "/dots"]).unwrap();
    match args.command {
        Commands::Link(d) => {
            assert_eq!(d.path, "/dots");
            assert!(d.force && d.test);
        }
        other => panic!("unexpected {:?}", other),
    }
    match Args::try_parse_from(&["widots", "brew", "export"]).unwrap().command {
        Commands::Brew(b) => assert_eq!(b.action, BrewAction::Export),
        other => panic!("unexpected {:?}", other),
    }
    match Args::try_parse_from(&["widots", "fish", "default"]).unwrap().command {
        Commands::Fish(f) => assert_eq!(f.action, FishAction::Default),
        other => panic!("unexpected {:?}", other),
    }
    match Args::try_parse_from(&["widots", "vscode", "code"]).unwrap().command {
        Commands::Vscode(v) => assert_eq!(v.action, VSCodeExtensionAction::Code),
        other => panic!("unexpected {:?}", other),
    }
    // `-v` belongs before the command.
    assert_eq!(
        Args::try_parse_from(&["widots", "link", "-v", "/dots"]).unwrap_err(),
        CliError::UnknownOption
    );
    assert_eq!(
        Args::try_parse_from(&["widots", "materialize", "--force", "/x"]).unwrap_err(),
        CliError::UnknownOption
    );
    assert_eq!(
        Args::try_parse_from(&["widots", "load"]).unwrap_err(),
        CliError::UnknownSubcommand
    );
}

#[test]
fn loaded_documents_give_the_first_run_file() {
    let parser = YamlParser::new();
    let doc = YamlNode::Hash(vec![(
        YamlNode::String("link".to_string()),
        YamlNode::Array(vec![YamlNode::Hash(vec![(
            YamlNode::String("location".to_string()),
            YamlNode::String("/a".to_string()),
        )])]),
    )]);
    let run = parser.parse_loaded(Ok(vec![doc, YamlNode::Null])).unwrap().unwrap();
    assert_eq!(run.link.unwrap()[0].location, "/a");
    assert!(run.provision.is_none());
    assert!(parser.parse_loaded(Ok(vec![])).is_none());
    assert!(matches!(
        parser.parse_loaded(Err("bad".to_string())),
        Some(Err(AppError::YamlParseError(m))) if m == "bad"
    ));
}

#[test]
fn run_flags_may_be_given_once() {
    assert_eq!(
        Args::try_parse_from(&["widots", "run", "-ff"]).unwrap_err(),
        CliError::ArgumentConflict
    );
    assert_eq!(
        Args::try_parse_from(&["widots", "link", "/d", "--test", "-t"]).unwrap_err(),
        CliError::ArgumentConflict
    );
    let args = Args::try_parse_from(&["widots", "run", "--force", "-t", "my.yml"]).unwrap();
    match args.command {
        Commands::Run(r) => assert!(r.force && r.test && r.path == "my.yml"),
        other => panic!("unexpected {:?}", other),
    }
}

#[test]
fn run_command_line_help_and_version() {
    assert_eq!(Args::try_parse_from(&["widots", "help"]).unwrap_err(), CliError::DisplayHelp);
    assert_eq!(Args::try_parse_from(&["widots", "run", "-h"]).unwrap_err(), CliError::DisplayHelp);
    assert_eq!(Args::try_parse_from(&["widots", "-V"]).unwrap_err(), CliError::DisplayVersion);
    assert_eq!(Args::try_parse_from(&["widots", "deploy", "--version"]).unwrap_err(), CliError::UnknownOption);
}
