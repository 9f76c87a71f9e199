use widots::infrastructure::fs::FileSystemOperationsImpl;
use widots::infrastructure::os::OSDetector;
use widots::infrastructure::path::PathExpander;
use widots::infrastructure::prompt::Prompt;
use widots::infrastructure::link::LinkerImpl;
use widots::infrastructure::shell::executor::SystemShellExecutor;
use widots::models::config::Config;
use widots::models::yaml::RunFile;
use widots::utils::io::IO;

#[test]
fn test_toml_file_system_operations_impl_default() {
    let default_parser = FileSystemOperationsImpl;
    let new_parser = FileSystemOperationsImpl::new();

    // Ensure that the default implementation works correctly
    assert_eq!(format!("{:?}", default_parser), format!("{:?}", new_parser));
}

#[test]
fn test_toml_os_detector_default() {
    let default_parser = OSDetector;
    let new_parser = OSDetector::new();

    // Ensure that the default implementation works correctly
    assert_eq!(format!("{:?}", default_parser), format!("{:?}", new_parser));
}

#[test]
fn test_toml_path_expander_default() {
    let default_parser = PathExpander;
    let new_parser = PathExpander::new();

    // Ensure that the default implementation works correctly
    assert_eq!(format!("{:?}", default_parser), format!("{:?}", new_parser));
}

#[test]
fn test_toml_prompt_default() {
    let default_parser = Prompt { force_yes: false };
    let new_parser = Prompt::new(false);

    // Ensure that the default implementation works correctly
    assert_eq!(format!("{:?}", default_parser), format!("{:?}", new_parser));
}

#[test]
fn test_prompt_new_and_default() {
    let new_prompt = Prompt::new(false);
    let default_prompt = Prompt::default();

    assert_eq!(format!("{:?}", new_prompt), format!("{:?}", default_prompt));
}

#[test]
fn forced_prompt_answers_yes_without_asking() {
    assert_eq!(Prompt::new(true).answer_without_asking(), Some(true));
    assert_eq!(Prompt::new(false).answer_without_asking(), None);
}

#[test]
fn default_values_equal_new_values() {
    assert_eq!(format!("{:?}", FileSystemOperationsImpl::default()), format!("{:?}", FileSystemOperationsImpl::new()));
    assert_eq!(format!("{:?}", OSDetector::default()), "OSDetector");
    assert_eq!(format!("{:?}", PathExpander::default()), "PathExpander");
    assert_eq!(format!("{:?}", LinkerImpl::default()), format!("{:?}", LinkerImpl::new()));
    assert_eq!(format!("{:?}", SystemShellExecutor::default()), "SystemShellExecutor");
    assert_eq!(format!("{:?}", widots::system::shell::ShellExecutor::default()), "ShellExecutor");
    assert_eq!(format!("{:?}", widots::system::path::PathExpander::default()), format!("{:?}", widots::system::path::PathExpander::new()));
    assert_eq!(format!("{:?}", widots::system::os::OSDetector::default()), "OSDetector");
    assert_eq!(format!("{:?}", IO::default()), format!("{:?}", IO::new()));
    let c = Config::default();
    assert!(c.link.is_none() && c.provision.is_none());
    let r = RunFile::default();
    assert!(r.link.is_none() && r.provision.is_none());
}
