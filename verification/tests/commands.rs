use widots::commands::brew::Homebrew;
use widots::commands::deploy::Deployer;
use widots::commands::fish::Fish;
use widots::commands::fisher::Fisher;
use widots::commands::link::{symlink_target_dir, Linker, SymlinkPlan};
use widots::commands::vscode::VSCode;
use widots::error::AppError;
use widots::system::path::PathExpander;

fn s(x: &str) -> String {
    x.to_string()
}

#[test]
fn homebrew_decisions() {
    let brew = Homebrew::new();
    assert!(brew.check_not_installed(false).is_ok());
    assert!(matches!(brew.check_not_installed(true), Err(AppError::Homebrew(m)) if m == "Homebrew is already installed"));
    assert!(matches!(brew.check_installed(false), Err(AppError::Homebrew(m)) if m == "Homebrew is not installed"));
    assert!(matches!(brew.install_outcome(false), Err(AppError::Homebrew(m)) if m == "Failed to install Homebrew"));
    assert_eq!(brew.formula_path(), "resources/formula.txt");
    assert_eq!(brew.cask_path(), "resources/cask-formula.txt");
    let lines = vec![s("  git "), s(""), s("fish")];
    assert_eq!(
        brew.install_formula_commands(&lines, "--cask"),
        vec!["brew install --cask git", "brew install --cask fish"]
    );
    assert_eq!(brew.export_command(&vec![s("list"), s("--cask")]), "brew list --cask");
}

#[test]
fn fish_decisions() {
    let fish = Fish::new();
    assert_eq!(fish.fish_path_from(true, " /opt/homebrew/bin/fish\n"), Some(s("/opt/homebrew/bin/fish")));
    assert_eq!(fish.fish_path_from(false, "/bin/fish"), None);
    assert_eq!(fish.user_shell_command("alice"), "dscl . -read /Users/alice UserShell");
    assert!(fish.is_default_from("UserShell: /usr/local/bin/fish", "/usr/local/bin/fish"));
    assert!(!fish.is_default_from("UserShell: /bin/zsh", "/usr/local/bin/fish"));
    assert!(fish.needs_etc_shells_entry("/bin/bash\n/bin/zsh\n", "/usr/local/bin/fish"));
    assert!(!fish.needs_etc_shells_entry("/bin/bash\n/usr/local/bin/fish\n", "/usr/local/bin/fish"));
    assert!(matches!(fish.etc_shells_outcome(false), Err(AppError::AddFishToEtcShellsFailed)));
    assert!(matches!(fish.change_shell_outcome(false), Err(AppError::Fish(m)) if m == "Failed to change default shell to Fish"));
    assert!(matches!(fish.check_homebrew(false), Err(AppError::Homebrew(_))));
    assert!(matches!(fish.install_outcome(false), Err(AppError::Fish(m)) if m == "Failed to install fish shell"));
    assert_eq!(fish.require_fish(Some(s("/bin/fish"))).unwrap(), "/bin/fish");
    assert!(matches!(fish.require_fish(None), Err(AppError::Fish(m)) if m == "Fish not found"));
    let cmd = fish.current_user_shell_command();
    assert!(cmd.starts_with("dscl . -read /Users/") && cmd.ends_with(" UserShell"));
    assert_eq!(
        fish.fish_path_from_output(true, &b"/usr/bin/fish\n".to_vec()),
        Some(s("/usr/bin/fish"))
    );
    assert!(fish.is_default_output(&b"UserShell: /usr/bin/fish\n".to_vec(), "/usr/bin/fish"));
    assert!(!fish.needs_etc_shells_entry_output(&b"/bin/sh\n/usr/bin/fish\n".to_vec(), "/usr/bin/fish"));
    match fish.change_shell_arguments("/usr/bin/fish") {
        widots::models::shell::Argument::Args(v) => {
            assert_eq!(v.len(), 3);
            assert_eq!(v[0], "-s");
            assert_eq!(v[1], "/usr/bin/fish");
        }
        other => panic!("unexpected {:?}", other),
    }
}

#[test]
fn fisher_decisions() {
    let fisher = Fisher::new();
    assert!(matches!(fisher.check_not_installed(true), Err(AppError::Fish(m)) if m == "Fisher is already installed"));
    assert!(matches!(fisher.install_outcome(false, "boom"), Err(AppError::Fish(m)) if m == "Failed to install Fisher: boom"));
    let plugins = fisher
        .read_plugins(true, b"jorgebucaran/fisher\n  ilancosman/tide \n\njorgebucaran/fisher\n".to_vec())
        .unwrap();
    let mut sorted = plugins.clone();
    sorted.sort();
    assert_eq!(sorted, vec!["ilancosman/tide", "jorgebucaran/fisher"]);
    assert!(matches!(fisher.read_plugins(false, vec![]), Err(AppError::Fish(m)) if m == "Failed to list Fisher plugins"));
    assert!(matches!(fisher.read_plugins(true, vec![0xff, 0xfe]), Err(AppError::Unexpected(_))));
    assert_eq!(fisher.install_plugin_command("a/b"), "fish -c 'fisher install a/b'");
    assert!(fisher.plugin_outcome("a/b", true, "").is_ok());
}

#[test]
fn vscode_decisions() {
    let code = VSCode::new();
    assert_eq!(code.get_extensions_path(), "resources/vscode-extensions.txt");
    assert!(matches!(code.list_outcome(false), Err(AppError::VSCode(m)) if m == "Failed to list extensions"));
    assert_eq!(code.install_extension_command("x.y"), "code --install-extension --force x.y");
    assert!(matches!(code.install_outcome("x.y", false), Err(AppError::VSCode(m)) if m == "Failed to install extension: x.y"));
}

#[test]
fn deployer_decisions() {
    let d = Deployer::new();
    assert!(matches!(d.build_outcome(false), Err(AppError::Deployment(m)) if m == "Build failed"));
    assert!(d.check_source(true).is_ok());
    assert_eq!(d.install_steps().len(), 2);
    assert_eq!(d.completions_target("/home/u"), "/home/u/.config/fish/completions/widots.fish");
}

#[test]
fn linker_decisions() {
    let linker = Linker::new(PathExpander::new());
    assert!(linker.should_ignore("/src/.DS_Store"));
    assert!(linker.should_ignore("/src/git/ignore"));
    assert!(linker.should_ignore("/src/node_modules/x/y"));
    assert!(!linker.should_ignore("/src/.config/fish/config.fish"));
    assert_eq!(
        linker.entry_target("/src/dots", "/home/u", "/src/dots/.config/fish"),
        Some(s("/home/u/.config/fish"))
    );
    assert_eq!(linker.entry_target("/src/dots", "/home/u", "/elsewhere/x"), None);
    assert_eq!(linker.plan_make_symlink(false, false), SymlinkPlan::Create);
    assert_eq!(linker.plan_make_symlink(true, true), SymlinkPlan::ReplaceAndCreate);
    assert_eq!(linker.plan_make_symlink(true, false), SymlinkPlan::Skip);
    assert!(linker.should_materialize("/home/u/.vimrc", true));
    assert!(!linker.should_materialize("/home/u/.vimrc", false));
    assert_eq!(symlink_target_dir("/home/u", false), "/home/u");
    assert_eq!(symlink_target_dir("/home/u", true), "/home/u/.widots_test");
}

#[test]
fn link_targets_mirror_the_source_tree() {
    let linker = Linker::new(PathExpander::new());
    for (source, rel) in [("/src/dots", "a"), ("/src/dots", ".config/fish/config.fish"), ("rel/dir", "x/y"), ("/", "etc/hosts")] {
        let entry = format!("{}/{}", source, rel);
        assert_eq!(
            linker.entry_target(source, "/home/u", &entry),
            Some(format!("/home/u/{}", rel)),
            "{}",
            entry
        );
    }
}

#[test]
fn fish_path_appended_to_etc_shells_is_found_again() {
    let fish = Fish::new();
    for shells in ["", "/bin/sh\n", "/bin/sh\r\n/bin/zsh\n"] {
        let once = format!("{}{}", shells, "/usr/bin/fish");
        assert!(!fish.needs_etc_shells_entry(&once, "/usr/bin/fish"));
        assert!(!fish.needs_etc_shells_entry(&format!("{}\n", once), "/usr/bin/fish"));
        assert!(fish.needs_etc_shells_entry(shells, "/usr/bin/fish"));
    }
}

#[test]
fn environment_variables_are_expanded() {
    let expander = PathExpander::new();
    let vars = vec![(s("HOME"), s("/home/u")), (s("DOTS"), s("dotfiles"))];
    assert_eq!(expander.expand_variables("$HOME/$DOTS/x", &vars), "/home/u/dotfiles/x");
    assert_eq!(expander.expand_variables("${HOME}_bak", &vars), "/home/u_bak");
    assert_eq!(expander.expand_variables("$HOME_bak", &vars), "$HOME_bak");
    assert_eq!(expander.expand_variables("$NOPE/${NOPE}/$/${}", &vars), "$NOPE/${NOPE}/$/${}");
    assert_eq!(expander.expand_variables("${HOME", &vars), "${HOME");
    assert_eq!(expander.expand_variables("a$$HOME", &vars), "a$/home/u");
}

#[test]
fn which_reports_a_missing_command() {
    let shell = widots::system::shell::ShellExecutor::new();
    let brew = widots::models::shell::Cmd::new("brew");
    assert!(shell.which_outcome(&brew, true).is_ok());
    assert!(matches!(shell.which_outcome(&brew, false), Err(AppError::WhichExecutionError(m)) if m == "brew"));
    let empty = widots::models::shell::Cmd::Empty;
    assert!(matches!(shell.which_outcome(&empty, true), Err(AppError::EmptyCommand)));
    assert_eq!(
        shell.which_argv(&brew).unwrap(),
        vec!["which".to_string(), "brew".to_string()]
    );
}
