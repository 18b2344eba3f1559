use crash_report::{
    failure_notice, join, outcome_text, output_dir, prepare_report, report_path, should_register,
    success_notice, Fault, HostFacts, IdGenerator, Location, Metadata, Payload, PrepareError,
    Timestamp,
};

fn metadata() -> Metadata {
    Metadata::new(
        "demo-app".to_string(),
        "1.2.3".to_string(),
        "https://github.com/example/demo-app".to_string(),
    )
}

fn host(secs: i64) -> HostFacts {
    HostFacts {
        captured_at: Timestamp { secs, nanos: 0 },
        binary_name: Some("demo-app".to_string()),
        working_dir: None,
        operating_system: "linux".to_string(),
    }
}

fn fault() -> Fault {
    Fault {
        payload: Payload::Text("boom".to_string()),
        location: Location { file: "src/lib.rs".to_string(), line: 3, column: 9 },
        backtrace: "frame".to_string(),
    }
}

#[test]
fn registration_needs_release_build() {
    assert!(!should_register(false, false));
    assert!(!should_register(false, true));
}

#[test]
fn registration_skipped_when_verbose_backtraces_set() {
    assert!(!should_register(true, true));
}

#[test]
fn registration_in_release_without_toggle() {
    assert!(should_register(true, false));
}

#[test]
fn join_places_one_separator() {
    assert_eq!(join("/tmp", "app"), "/tmp/app");
    assert_eq!(join("/tmp/", "app"), "/tmp/app");
    assert_eq!(join("C:\\Temp\\", "app"), "C:\\Temp\\app");
    assert_eq!(join("", "app"), "app");
}

#[test]
fn report_paths_follow_naming_scheme() {
    assert_eq!(output_dir("/tmp", "demo-app"), "/tmp/demo-app/crash");
    assert_eq!(
        report_path("/tmp/", "demo-app", "01ARZ3NDEKTSV4RRFFQ69G5FAV"),
        "/tmp/demo-app/crash/01ARZ3NDEKTSV4RRFFQ69G5FAV.toml"
    );
}

#[test]
fn success_notice_text() {
    assert_eq!(
        success_notice("demo-app", "/tmp/demo-app/crash/A.toml", "https://github.com/example/demo-app"),
        "demo-app has crashed!\n\nA crash report has been saved to /tmp/demo-app/crash/A.toml. \
         To get support for this problem,\nplease raise an issue on GitHub at \
         https://github.com/example/demo-app/issues and include the crash\nreport to help us better \
         diagnose the problem.\n"
    );
}

#[test]
fn failure_notice_text() {
    let sep = "-".repeat(20);
    assert_eq!(
        failure_notice("/x/a.toml", "permission denied", "a = \"b\"\n"),
        format!(
            "error: failed to save crash report to /x/a.toml\n{sep}\npermission denied\n{sep}\n\
             error: writing crash report directly to stderr\n{sep}\na = \"b\"\n\n{sep}\n"
        )
    );
}

#[test]
fn prepare_report_plans_path_content_and_notice() {
    let mut ids = IdGenerator::new();
    let plan = prepare_report(&metadata(), &host(0), &fault(), "/tmp", &mut ids).unwrap();
    assert_eq!(plan.output_dir, "/tmp/demo-app/crash");
    assert!(plan.report_path.starts_with("/tmp/demo-app/crash/"));
    assert!(plan.report_path.ends_with(".toml"));
    assert_eq!(plan.report_path.len(), "/tmp/demo-app/crash/".len() + 26 + 5);
    assert!(plan.content.contains("panic_message = \"boom\""));
    assert!(plan.content.contains("panic_location = \"src/lib.rs:3:9\""));
    assert!(plan.notice.contains(&plan.report_path));
    assert!(plan.notice.starts_with("demo-app has crashed!"));
}

#[test]
fn prepare_report_time_out_of_range() {
    let mut ids = IdGenerator::new();
    let r = prepare_report(&metadata(), &host(i64::MIN), &fault(), "/tmp", &mut ids);
    assert_eq!(r.err(), Some(PrepareError::TimeOutOfRange));
    assert!(ids.next_value().is_some());
}

#[test]
fn saved_report_scenario() {
    let mut ids = IdGenerator::new();
    let plan = prepare_report(&metadata(), &host(1_700_000_000), &fault(), "/var/tmp", &mut ids).unwrap();
    assert_eq!(plan.output_dir, "/var/tmp/demo-app/crash");
    let shown = outcome_text(&plan, Ok(()));
    assert_eq!(shown, plan.notice);
    assert_eq!(
        shown,
        format!(
            "demo-app has crashed!\n\nA crash report has been saved to {}. To get support for this problem,\n\
             please raise an issue on GitHub at https://github.com/example/demo-app/issues and include the crash\n\
             report to help us better diagnose the problem.\n",
            plan.report_path
        )
    );
}

#[test]
fn unwritable_output_dir_scenario() {
    let mut ids = IdGenerator::new();
    let plan = prepare_report(&metadata(), &host(1_700_000_000), &fault(), "/proc", &mut ids).unwrap();
    let detail = "Permission denied (os error 13)".to_string();
    let shown = outcome_text(&plan, Err(detail.clone()));
    assert!(!shown.contains("has crashed!"));
    assert!(shown.contains(&plan.content));
    let sep = "-".repeat(20);
    assert_eq!(
        shown,
        format!(
            "error: failed to save crash report to {}\n{sep}\n{}\n{sep}\n\
             error: writing crash report directly to stderr\n{sep}\n{}\n{sep}\n",
            plan.report_path, detail, plan.content
        )
    );
}

#[test]
fn two_faults_get_distinct_report_files() {
    let mut ids = IdGenerator::new();
    let first = prepare_report(&metadata(), &host(1_700_000_000), &fault(), "/tmp", &mut ids).unwrap();
    let second = prepare_report(&metadata(), &host(1_700_000_001), &fault(), "/tmp", &mut ids).unwrap();
    assert_eq!(first.output_dir, second.output_dir);
    assert_ne!(first.report_path, second.report_path);
    assert!(first.report_path < second.report_path);
}
