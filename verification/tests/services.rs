use widots::application::services::{
    brew_service, deploy_service, fish_service, load_service, vscode_service,
};
use widots::models::config::{Config, Link, Provision};
use widots::models::shell::CommandLine;
use widots::service_error::AppError;

fn words(c: &CommandLine) -> Vec<String> {
    let mut v = vec![c.program.clone()];
    v.extend(c.args.iter().cloned());
    v
}

fn s(x: &str) -> String {
    x.to_string()
}

#[test]
fn brew_service_commands_and_lists() {
    assert_eq!(words(&brew_service::install_command())[0..2], [s("bash"), s("-c")]);
    assert_eq!(brew_service::formula_list_path(), "resources/brew_formulas.txt");
    assert_eq!(brew_service::cask_list_path(), "resources/brew_casks.txt");
    let formulas = vec![s("git"), s("fish")];
    let cmds = brew_service::formula_install_commands(&formulas);
    assert_eq!(cmds.len(), 2);
    assert_eq!(words(&cmds[1]), vec!["brew", "install", "fish"]);
    let casks = brew_service::cask_install_commands(&vec![s("iterm2")]);
    assert_eq!(words(&casks[0]), vec!["brew", "install", "--cask", "iterm2"]);
    assert_eq!(words(&brew_service::list_formulas_command()), vec!["brew", "leaves"]);
    assert_eq!(words(&brew_service::list_casks_command()), vec!["brew", "list", "--cask"]);
}

#[test]
fn fish_service_commands() {
    assert_eq!(words(&fish_service::install_command("macos").unwrap()), vec!["brew", "install", "fish"]);
    assert_eq!(
        words(&fish_service::install_command("linux").unwrap()),
        vec!["sudo", "apt-get", "install", "fish"]
    );
    match fish_service::install_command("windows") {
        Err(AppError::UnsupportedOS(os)) => assert_eq!(os, "windows"),
        other => panic!("unexpected {:?}", other),
    }
    assert_eq!(words(&fish_service::which_fish_command()), vec!["which", "fish"]);
    let cmds = fish_service::set_default_commands("  /usr/bin/fish\n");
    assert_eq!(
        words(&cmds[0]),
        vec!["echo", "'", "/usr/bin/fish", "'", "|", "sudo", "tee", "-a", "/etc/shells"]
    );
    assert_eq!(words(&cmds[1]), vec!["chsh", "-s", "/usr/bin/fish"]);
    assert_eq!(words(&fish_service::install_fisher_command())[0..2], [s("fish"), s("-c")]);
}

#[test]
fn vscode_service_plans() {
    assert_eq!(vscode_service::extensions_path(), "resources/vscode_extensions.txt");
    assert_eq!(words(&vscode_service::list_extensions_command()), vec!["code", "--list-extensions"]);
    let cmds = vscode_service::install_extension_commands(&vec![s("rust-lang.rust-analyzer")]);
    assert_eq!(words(&cmds[0]), vec!["code", "--install-extension", "rust-lang.rust-analyzer"]);
    assert_eq!(words(&vscode_service::which_code_command()), vec!["which", "code"]);
    assert!(matches!(vscode_service::ensure_code_plan(true, "linux", false), Ok(None)));
    match vscode_service::ensure_code_plan(false, "macos", true) {
        Ok(Some(c)) => assert_eq!(
            words(&c),
            vec![
                "ln",
                "-s",
                "/Applications/Visual Studio Code.app/Contents/Resources/app/bin/code",
                "/usr/local/bin/code"
            ]
        ),
        other => panic!("unexpected {:?}", other),
    }
    assert!(matches!(
        vscode_service::ensure_code_plan(false, "macos", false),
        Err(AppError::CodeCommandNotInstalled)
    ));
    assert!(matches!(
        vscode_service::ensure_code_plan(false, "linux", true),
        Err(AppError::CodeCommandNotInstalled)
    ));
}

#[test]
fn deploy_service_plans() {
    assert_eq!(words(&deploy_service::build_command()), vec!["cargo", "build", "--release"]);
    assert!(deploy_service::build_outcome(true, "").is_ok());
    match deploy_service::build_outcome(false, "linker failed") {
        Err(AppError::Deployment(m)) => assert_eq!(m, "linker failed"),
        other => panic!("unexpected {:?}", other),
    }
    match deploy_service::check_source(false) {
        Err(AppError::FileNotFound(p)) => assert_eq!(p, "target/release/widots"),
        other => panic!("unexpected {:?}", other),
    }
    let cmds = deploy_service::install_commands("/usr/local/bin/widots");
    assert_eq!(
        words(&cmds[0]),
        vec!["sudo", "cp", "target/release/widots", "/usr/local/bin/widots"]
    );
    assert_eq!(words(&cmds[1]), vec!["sudo", "chmod", "+x", "/usr/local/bin/widots"]);
    assert_eq!(
        deploy_service::completions_target("/home/u/.config/fish/completions"),
        "/home/u/.config/fish/completions/widots.fish"
    );
}

#[test]
fn load_service_selects_scripts_for_this_system() {
    let config = Config {
        link: Some(vec![Link { location: s("~/dots") }]),
        provision: Some(vec![
            Provision { mode: s("macos"), script: s("echo mac") },
            Provision { mode: s("linux"), script: s("echo linux") },
        ]),
    };
    assert_eq!(load_service::link_locations(&config), vec!["~/dots"]);
    assert_eq!(load_service::scripts_to_run(&config, "linux"), vec!["echo linux"]);
    assert!(load_service::scripts_to_run(&config, "freebsd").is_empty());
    assert!(load_service::has_provisions(&config));
    assert!(!load_service::has_provisions(&Config::new()));
    assert!(load_service::link_locations(&Config::new()).is_empty());
    assert_eq!(words(&load_service::bash_command("/tmp/x.sh")), vec!["bash", "/tmp/x.sh"]);
}
