use crash_report::{
    decimal_text, location_text, panic_message, Fault, HostFacts, Location, Metadata, Payload,
    Report, Timestamp,
};

fn metadata() -> Metadata {
    Metadata::new(
        "demo-app".to_string(),
        "1.2.3".to_string(),
        "https://github.com/example/demo-app".to_string(),
    )
}

fn host(secs: i64, nanos: u32) -> HostFacts {
    HostFacts {
        captured_at: Timestamp { secs, nanos },
        binary_name: Some("/usr/bin/demo-app".to_string()),
        working_dir: Some("/home/user".to_string()),
        operating_system: "linux".to_string(),
    }
}

fn fault(payload: Payload) -> Fault {
    Fault {
        payload,
        location: Location { file: "src/main.rs".to_string(), line: 42, column: 7 },
        backtrace: "   0: demo::main\n   1: std::rt::lang_start\n".to_string(),
    }
}

#[test]
fn metadata_keeps_its_fields() {
    let md = metadata();
    assert_eq!(md.name(), "demo-app");
    assert_eq!(md.version(), "1.2.3");
    assert_eq!(md.repository(), "https://github.com/example/demo-app");
}

#[test]
fn report_carries_package_name_and_version() {
    let md = Metadata::new("x".to_string(), "0.0.1-beta".to_string(), "u".to_string());
    let r = Report::new(&md, &host(0, 0), &fault(Payload::Other)).unwrap();
    assert_eq!(r.package_name, "x");
    assert_eq!(r.package_version, "0.0.1-beta");
    assert_eq!(r.operating_system, "linux");
    assert_eq!(r.binary_name.as_deref(), Some("/usr/bin/demo-app"));
    assert_eq!(r.working_dir.as_deref(), Some("/home/user"));
}

#[test]
fn panic_location_has_file_line_column_shape() {
    let r = Report::new(&metadata(), &host(0, 0), &fault(Payload::Other)).unwrap();
    assert_eq!(r.panic_location, "src/main.rs:42:7");
    let loc = Location { file: "a/b.rs".to_string(), line: 4294967295, column: 0 };
    assert_eq!(location_text(&loc), "a/b.rs:4294967295:0");
}

#[test]
fn text_payload_becomes_message() {
    assert_eq!(panic_message(&Payload::Text("boom".to_string())), Some("boom".to_string()));
    let r = Report::new(&metadata(), &host(0, 0), &fault(Payload::Text("X".to_string()))).unwrap();
    assert_eq!(r.panic_message, Some("X".to_string()));
}

#[test]
fn other_payload_gives_no_message() {
    assert_eq!(panic_message(&Payload::Other), None);
    let r = Report::new(&metadata(), &host(0, 0), &fault(Payload::Other)).unwrap();
    assert_eq!(r.panic_message, None);
}

#[test]
fn captured_at_is_rfc3339_utc() {
    let r = Report::new(&metadata(), &host(0, 0), &fault(Payload::Other)).unwrap();
    assert_eq!(r.captured_at, "1970-01-01T00:00:00+00:00");
    let r = Report::new(&metadata(), &host(1_700_000_000, 500_000_000), &fault(Payload::Other)).unwrap();
    assert_eq!(r.captured_at, "2023-11-14T22:13:20.500+00:00");
}

#[test]
fn out_of_range_time_gives_no_report() {
    assert!(Report::new(&metadata(), &host(i64::MAX, 0), &fault(Payload::Other)).is_none());
}

#[test]
fn document_lists_present_fields_in_order() {
    let r = Report::new(&metadata(), &host(0, 0), &fault(Payload::Text("m".to_string()))).unwrap();
    let keys: Vec<String> = r.document().into_iter().map(|(k, _)| k).collect();
    assert_eq!(
        keys,
        vec![
            "captured_at",
            "package_name",
            "package_version",
            "binary_name",
            "working_dir",
            "operating_system",
            "panic_message",
            "panic_location",
            "backtrace"
        ]
    );
}

#[test]
fn document_omits_absent_fields() {
    let mut h = host(0, 0);
    h.binary_name = None;
    h.working_dir = None;
    let r = Report::new(&metadata(), &h, &fault(Payload::Other)).unwrap();
    let doc = r.document();
    assert_eq!(doc.len(), 6);
    assert!(doc.iter().all(|(k, _)| k != "binary_name" && k != "working_dir" && k != "panic_message"));
    assert_eq!(doc[3], ("operating_system".to_string(), "linux".to_string()));
}

#[test]
fn toml_round_trip_keeps_fields() {
    let r = Report::new(&metadata(), &host(1_700_000_000, 0), &fault(Payload::Text("it \"broke\"".to_string())))
        .unwrap();
    let text = r.to_toml();
    let table: toml::Table = toml::from_str(&text).unwrap();
    assert_eq!(table.len(), 9);
    for (k, v) in r.document() {
        assert_eq!(table.get(&k).and_then(|x| x.as_str()), Some(v.as_str()), "field {}", k);
    }
    assert!(text.starts_with("captured_at = "));
}

#[test]
fn toml_round_trip_without_optional_fields() {
    let mut h = host(0, 0);
    h.binary_name = None;
    h.working_dir = None;
    let r = Report::new(&metadata(), &h, &fault(Payload::Other)).unwrap();
    let text = r.to_toml();
    let table: toml::Table = toml::from_str(&text).unwrap();
    assert_eq!(table.len(), 6);
    assert!(table.get("binary_name").is_none());
    assert!(table.get("panic_message").is_none());
    assert_eq!(table.get("panic_location").and_then(|x| x.as_str()), Some("src/main.rs:42:7"));
}

#[test]
fn decimal_text_values() {
    assert_eq!(decimal_text(0), "0");
    assert_eq!(decimal_text(7), "7");
    assert_eq!(decimal_text(10), "10");
    assert_eq!(decimal_text(18446744073709551615), "18446744073709551615");
}
