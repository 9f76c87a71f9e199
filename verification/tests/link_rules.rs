use widots::infrastructure::link::LinkerImpl;

#[test]
fn test_should_ignore() {
    let linker = LinkerImpl::new();

    // Test ignored files
    assert!(linker.should_ignore(".DS_Store"));
    assert!(linker.should_ignore(".gitignore"));

    // Test ignored prefixes
    assert!(linker.should_ignore("_ignored_file"));

    // Test ignored ancestors
    assert!(linker.should_ignore("some/path/.git/config"));
    assert!(linker.should_ignore("project/node_modules/package/file.js"));

    // Test git ignore or config
    assert!(linker.should_ignore("some/path/git/ignore"));
    assert!(linker.should_ignore("another/path/git/config"));
    assert!(linker.should_ignore(".git/ignore"));
    assert!(linker.should_ignore(".git/config"));

    // Test non-ignored files
    assert!(!linker.should_ignore("README.md"));
    assert!(!linker.should_ignore(".hidden_file"));
    assert!(!linker.should_ignore("some/path/file.rs"));

    // Test non-ignored git/ignore or git/config like files
    assert!(!linker.should_ignore("some/path/git/other_file"));
    assert!(!linker.should_ignore("foogit/ignore"));
    assert!(!linker.should_ignore("git/ignorebar"));
    assert!(!linker.should_ignore("some/git/path/ignore"));
}

#[test]
fn test_validate_filename() {
    let linker = LinkerImpl::new();

    assert!(linker.validate_filename("valid_file.txt").is_ok());
    assert!(linker.validate_filename("another-valid-file.rs").is_ok());

    assert!(linker.validate_filename("").is_err());
    assert!(linker.validate_filename(".").is_err());
    assert!(linker.validate_filename("..").is_err());
    assert!(linker.validate_filename("invalid*file.txt").is_err());
    assert!(linker.validate_filename("invalid/file.txt").is_err());
}

#[test]
fn test_validate_filename_special_entries() {
    let linker = LinkerImpl::new();
    assert!(linker.validate_filename(".").is_err());
    assert!(linker.validate_filename("..").is_err());
}

#[test]
fn test_toml_linker_impl_default() {
    let default_parser = LinkerImpl;
    let new_parser = LinkerImpl::new();

    assert_eq!(format!("{:?}", default_parser), format!("{:?}", new_parser));
}

#[test]
fn filename_verdict_uses_the_match_result() {
    let linker = LinkerImpl::new();
    assert!(linker.filename_verdict("ok.txt", Some(true)).is_ok());
    assert_eq!(
        linker.filename_verdict("ok.txt", Some(false)).unwrap_err(),
        "Filename contains invalid characters"
    );
    assert_eq!(
        linker.filename_verdict("ok.txt", None).unwrap_err(),
        "Filename contains invalid characters"
    );
    assert_eq!(linker.filename_verdict("", Some(true)).unwrap_err(), "Filename cannot be empty");
    assert_eq!(
        linker.filename_verdict("..", Some(true)).unwrap_err(),
        "Filename cannot be '.' or '..'"
    );
}

#[test]
fn filename_pattern_takes_ascii_names_only() {
    let linker = LinkerImpl::new();
    assert!(linker.validate_filename("A-z_0.9").is_ok());
    assert!(linker.validate_filename("ümlaut").is_err());
    assert!(linker.validate_filename("line\n").is_err());
    assert!(linker.validate_filename("sp ace").is_err());
}
