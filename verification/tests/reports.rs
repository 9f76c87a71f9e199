use widots::application::services::link_service::add_target_entries;
use widots::commands::link::Linker;
use widots::commands::materialize::Materializer;
use widots::error::AppError;
use widots::logger::{level_for_verbosity, LogLevel};
use widots::models::link::FileProcessResult;
use widots::presentation::commands::{execution_target, link_report, materialize_report};
use widots::system::path::PathExpander;

fn s(x: &str) -> String {
    x.to_string()
}

#[test]
fn execution_target_uses_test_directory() {
    assert_eq!(execution_target("/home/u", false), "/home/u");
    assert_eq!(execution_target("/home/u", true), "/home/u/.widots-test");
}

#[test]
fn link_and_materialize_reports() {
    let results = vec![
        FileProcessResult::Linked(s("/src/a"), s("/home/u/a")),
        FileProcessResult::Created(s("/home/u/d")),
        FileProcessResult::Skipped(s("/home/u/b")),
        FileProcessResult::Materialized(s("/home/u/c"), s("/src/c")),
        FileProcessResult::Error(AppError::Link(s("boom"))),
    ];
    assert_eq!(
        link_report(&results),
        vec![
            "Linked: /src/a -> /home/u/a",
            "Created directory: /home/u/d",
            "Skipped: /home/u/b",
        ]
    );
    assert_eq!(
        materialize_report(&results),
        vec!["Materialized: /home/u/c (was linked to /src/c)"]
    );
    let m = Materializer::new(Linker::new(PathExpander::new()));
    let shown = m.reported(results.clone());
    assert_eq!(shown.len(), 2);
    assert!(matches!(&shown[0], FileProcessResult::Materialized(a, b) if a == "/home/u/c" && b == "/src/c"));
    assert!(matches!(&shown[1], FileProcessResult::Error(AppError::Link(e)) if e == "boom"));
}

#[test]
fn verbosity_selects_log_level() {
    assert_eq!(level_for_verbosity(0), LogLevel::Info);
    assert_eq!(level_for_verbosity(1), LogLevel::Debug);
    assert_eq!(level_for_verbosity(2), LogLevel::Trace);
    assert_eq!(level_for_verbosity(255), LogLevel::Trace);
}

#[test]
fn target_entries_not_reported_are_added_as_skipped() {
    let results = vec![
        FileProcessResult::Linked(s("/src/a"), s("/t/a")),
        FileProcessResult::Skipped(s("/t/b")),
    ];
    let entries = vec![s("/t/a"), s("/t/c"), s("/t//b/"), s("/t/c")];
    let all = add_target_entries(results, &entries);
    assert_eq!(all.len(), 3);
    assert!(matches!(&all[2], FileProcessResult::Skipped(p) if p == "/t/c"));
}

#[test]
fn log_lines_carry_time_target_and_level() {
    assert_eq!(
        widots::logger::format_log_message("[2024-01-02][03:04:05]", "widots", "INFO", "hello"),
        "[2024-01-02][03:04:05][widots][INFO] hello"
    );
}
