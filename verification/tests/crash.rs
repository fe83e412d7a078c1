use roost_engine::crash::{
    crash_file_path, first_line, format_report, panic_location, panic_payload, write_crash_file,
    CrashStep, OpenOutcome, PanicFacts,
};

#[test]
fn format_report_contains_expected_fields() {
    let report = format_report(&PanicFacts {
        app_label: "roost-test",
        version: "9.9.9",
        os: "linux",
        arch: "x86_64",
        thread: Some("main"),
        location: Some("crash.rs:1:2"),
        payload: Some("boom at the disco"),
        backtrace: "0: here",
    });
    assert_eq!(
        report,
        "app: roost-test\nversion: 9.9.9\nos: linux\narch: x86_64\nthread: main\n\
         location: crash.rs:1:2\npanic: boom at the disco\n\nbacktrace:\n0: here\n"
    );
}

#[test]
fn format_report_does_not_panic_on_degenerate_inputs() {
    let report = format_report(&PanicFacts {
        app_label: "",
        version: "",
        os: "",
        arch: "",
        thread: None,
        location: None,
        payload: None,
        backtrace: "",
    });
    assert!(report.contains("<non-string payload>"), "{report}");
    assert!(report.contains("thread: <unnamed>"), "{report}");
    assert!(report.contains("location: unknown"), "{report}");
    assert_eq!(panic_payload(Some("x")), "x");
    assert_eq!(panic_location(None), "unknown");
    assert_eq!(first_line("one\ntwo"), "one");
    assert_eq!(first_line(""), "");
}

#[test]
fn write_crash_file_lands_exactly_one_file_with_matching_contents() {
    assert_eq!(
        crash_file_path("/logs", 1_700_000_000, 4242, 0),
        "/logs/crash-1700000000-4242.txt"
    );
    assert_eq!(
        write_crash_file(0, OpenOutcome::Created { written: true }),
        CrashStep::Written
    );
}

#[test]
fn write_crash_file_suffixes_on_collision() {
    assert_eq!(
        write_crash_file(0, OpenOutcome::AlreadyExists),
        CrashStep::Try { attempt: 1 }
    );
    assert_eq!(
        crash_file_path("/logs/", 1_700_000_000, 4242, 1),
        "/logs/crash-1700000000-4242-1.txt"
    );
    assert_eq!(
        write_crash_file(8, OpenOutcome::AlreadyExists),
        CrashStep::Try { attempt: 9 }
    );
    assert_eq!(write_crash_file(9, OpenOutcome::AlreadyExists), CrashStep::GiveUp);
}

#[test]
fn write_crash_file_returns_none_for_unwritable_dir() {
    assert_eq!(write_crash_file(0, OpenOutcome::Failed), CrashStep::GiveUp);
    assert_eq!(
        write_crash_file(0, OpenOutcome::Created { written: false }),
        CrashStep::RemoveAndGiveUp
    );
}
