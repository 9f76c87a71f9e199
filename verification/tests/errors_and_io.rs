use widots::models::link::FileProcessResult;
use widots::error::app_error::AppError as RunError;
use widots::error::{AppError, IoError, IoErrorKind};
use widots::infrastructure::fs::FileSystemOperationsImpl;
use widots::infrastructure::link::{LinkEntryStep, LinkerImpl, MaterializeStep};
use widots::infrastructure::os::OSDetector;
use widots::infrastructure::path::PathExpander;
use widots::infrastructure::shell::executor::SystemShellExecutor;
use widots::service_error::AppError as ServiceError;
use widots::system::os::OSDetector as RunOs;
use widots::utils::io::{read_lines, IO};

fn s(x: &str) -> String {
    x.to_string()
}

#[test]
fn with_context_prefixes_io_and_path_errors_only() {
    let e = AppError::Io(IoError { kind: IoErrorKind::NotFound, message: s("gone") });
    match e.with_context("reading config") {
        AppError::Io(r) => {
            assert_eq!(r.kind, IoErrorKind::NotFound);
            assert_eq!(r.message, "reading config: gone");
        }
        other => panic!("unexpected {:?}", other),
    }
    match AppError::Path(s("bad")).with_context("ctx") {
        AppError::Path(m) => assert_eq!(m, "ctx: bad"),
        other => panic!("unexpected {:?}", other),
    }
    assert!(matches!(AppError::HomeDirectoryNotFound.with_context("ctx"), AppError::HomeDirectoryNotFound));
    assert_eq!(AppError::HomeDirectoryNotFound.message(), "Home directory not found");
    assert_eq!(AppError::Link(s("x")).message(), "Linking error: x");
}

#[test]
fn with_context_keeps_the_kind_of_run_errors() {
    match RunError::YamlParseError(s("bad indent")).with_context("run.yml") {
        RunError::YamlParseError(m) => assert_eq!(m, "run.yml: bad indent"),
        other => panic!("unexpected {:?}", other),
    }
    assert_eq!(RunError::IoError(s("x")).message(), "IO error: x");
    assert_eq!(RunError::UnsupportedOS(s("plan9")).message(), "Unsupported OS: plan9");
}

#[test]
fn service_error_messages() {
    assert_eq!(ServiceError::TomlParse(s("eof")).message(), "TOML parse error: eof");
    assert_eq!(ServiceError::DirectoryNotFound.message(), "Directory not found");
    assert_eq!(ServiceError::CodeCommandNotInstalled.message(), "Code command not installed");
}

#[test]
fn command_output_is_decoded_or_reported() {
    let shell = SystemShellExecutor::new();
    assert_eq!(shell.execution_result(true, b"hello\n".to_vec(), vec![]).unwrap(), "hello\n");
    match shell.execution_result(true, vec![0x66, 0xff], vec![]) {
        Err(ServiceError::ShellExecution(m)) => {
            assert!(m.starts_with("Failed to parse command output: "));
            assert!(m.len() > "Failed to parse command output: ".len());
        }
        other => panic!("unexpected {:?}", other),
    }
    match shell.execution_result(false, vec![], b"no such file\n".to_vec()) {
        Err(ServiceError::ShellExecution(m)) => assert_eq!(m, "no such file\n"),
        other => panic!("unexpected {:?}", other),
    }
    assert_eq!(shell.stderr(&vec![0x61, 0xff, 0x62]), "a\u{FFFD}b");
    match shell.spawn_error("not found") {
        ServiceError::ShellExecution(m) => assert_eq!(m, "Failed to execute command: not found"),
        other => panic!("unexpected {:?}", other),
    }
}

#[test]
fn operating_system_names() {
    assert_eq!(OSDetector::new().get_os_for("macos").unwrap(), "macos");
    assert_eq!(OSDetector::new().get_os_for("linux").unwrap(), "linux");
    assert!(matches!(OSDetector::new().get_os_for("windows"), Err(ServiceError::UnsupportedOS(m)) if m == "Unknown"));
    assert_eq!(RunOs::new().get_os_for("macos").unwrap(), "mac");
    assert_eq!(RunOs::new().get_os_for("freebsd").unwrap(), "unknown");
}

#[test]
fn home_directory_expansion() {
    let expander = PathExpander::new();
    assert_eq!(expander.expand_tilde("/etc/hosts").unwrap(), "/etc/hosts");
    match expander.get_home_dir() {
        Ok(home) => {
            let expanded = expander.expand_tilde("~/x").unwrap();
            assert_eq!(expanded, format!("{}/x", home.trim_end_matches('/')));
        }
        Err(e) => assert!(matches!(e, ServiceError::DirectoryNotFound)),
    }
}

#[test]
fn lines_files() {
    let fs = FileSystemOperationsImpl::new();
    assert_eq!(fs.lines_of("a\nb\n"), vec!["a", "b"]);
    assert_eq!(fs.contents_of(&vec![s("a"), s("b")]), "a\nb\n");
    assert_eq!(IO::new().read_lines("x\r\ny").unwrap(), vec!["x", "y"]);
    assert!(matches!(read_lines(""), Err(AppError::Unexpected(m)) if m == "File is empty"));
}

#[test]
fn link_run_plans() {
    let linker = LinkerImpl::new();
    assert_eq!(linker.plan_target("/t", true).len(), 0);
    assert_eq!(linker.plan_target("/t", false).len(), 1);
    assert!(matches!(linker.plan_link_entry("/t", "/s/bad*name", "bad*name", false), LinkEntryStep::Skip(p) if p == "/s/bad*name"));
    assert!(matches!(linker.plan_link_entry("/t", "/s/.DS_Store", ".DS_Store", false), LinkEntryStep::Skip(_)));
    assert!(matches!(linker.plan_link_entry("/t", "/s/conf", "conf", true), LinkEntryStep::Descend { source, target } if source == "/s/conf" && target == "/t/conf"));
    assert!(matches!(linker.plan_link_entry("/t", "/s/.vimrc", ".vimrc", false), LinkEntryStep::Link { source, target } if source == "/s/.vimrc" && target == "/t/.vimrc"));
    assert!(matches!(linker.plan_materialize_entry("/t/d", true, false), MaterializeStep::Descend(p) if p == "/t/d"));
    assert!(matches!(linker.plan_materialize_entry("/t/l", false, true), MaterializeStep::Materialize(p) if p == "/t/l"));
    assert!(matches!(linker.plan_materialize_entry("/t/f", false, false), MaterializeStep::Ignore));
    assert!(linker.is_ignored_file(".gitignore"));
    assert!(linker.has_ignored_prefix("_draft"));
    assert!(linker.has_ignored_ancestor("/a/.git/b"));
    assert!(linker.is_git_ignore_or_config("/a/git/config"));
    assert!(!linker.is_git_ignore_or_config("/a/git/other"));
}

#[test]
fn test_stderr() {
    let executor = SystemShellExecutor::new();
    let stderr = executor.stderr(&b"Error occurred".to_vec());
    assert_eq!(stderr, "Error occurred");
}

#[test]
fn link_steps_are_reported_once_done() {
    let linker = LinkerImpl::new();
    let skip = LinkEntryStep::Skip("/s/.DS_Store".to_string());
    assert!(matches!(linker.step_result(&skip), Some(FileProcessResult::Skipped(p)) if p == "/s/.DS_Store"));
    let link = LinkEntryStep::Link { source: "/s/.vimrc".to_string(), target: "/t/.vimrc".to_string() };
    assert!(matches!(linker.step_result(&link), Some(FileProcessResult::Linked(s, t)) if s == "/s/.vimrc" && t == "/t/.vimrc"));
    let descend = LinkEntryStep::Descend { source: "/s/conf".to_string(), target: "/t/conf".to_string() };
    assert!(linker.step_result(&descend).is_none());
}
