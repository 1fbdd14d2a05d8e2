use cursor_client::host::observe;
use cursor_client::host::timestamp;
use cursor_client::host::ClockReading;
use cursor_client::host::HostFacts;
use cursor_client::report::assemble;
use cursor_client::report::BugReportRequest;
use cursor_client::report::ReportField;

fn facts() -> HostFacts {
    HostFacts {
        app_version: "1.4.2".to_string(),
        system_name: "Ubuntu".to_string(),
        system_version: "22.04".to_string(),
        host_name: Some("workstation".to_string()),
        editor_version: Some("0.45.1".to_string()),
        time: Some("2024-05-01T12:00:00+00:00".to_string()),
    }
}

fn clock(seconds: u64, nanoseconds: u32) -> Option<ClockReading> {
    Some(ClockReading { seconds, nanoseconds })
}

fn report() -> BugReportRequest {
    assemble(facts(), "it crashed".to_string(), "high".to_string(), None, None, None)
}

#[test]
fn assemble_fills_every_field() {
    let report = assemble(
        facts(),
        "it crashed".to_string(),
        "high".to_string(),
        Some("key-1".to_string()),
        Some(vec!["https://example.com/a.png".to_string()]),
        None,
    );
    assert_eq!(
        report,
        BugReportRequest {
            api_key: Some("key-1".to_string()),
            app_version: "1.4.2".to_string(),
            os_version: "Ubuntu 22.04".to_string(),
            device_model: "workstation".to_string(),
            cursor_version: "0.45.1".to_string(),
            bug_description: "it crashed".to_string(),
            occurrence_time: "2024-05-01T12:00:00+00:00".to_string(),
            screenshot_urls: Some(vec!["https://example.com/a.png".to_string()]),
            severity: "high".to_string(),
        }
    );
}

#[test]
fn assemble_degrades_to_unknown() {
    let unknown = HostFacts { host_name: None, editor_version: None, ..facts() };
    let timeless = HostFacts { time: None, ..unknown.clone() };
    let report =
        assemble(timeless, "it crashed".to_string(), "low".to_string(), None, None, None);
    assert_eq!(report.occurrence_time, "Unknown");
    assert_eq!(report.first_empty(), None);
    let report =
        assemble(unknown, "it crashed".to_string(), "low".to_string(), None, None, None);
    assert_eq!(report.device_model, "Unknown");
    assert_eq!(report.cursor_version, "Unknown");
    assert_eq!(report.app_version, "1.4.2");
    assert_eq!(report.os_version, "Ubuntu 22.04");
    assert_eq!(report.bug_description, "it crashed");
    assert_eq!(report.occurrence_time, "2024-05-01T12:00:00+00:00");
    assert_eq!(report.severity, "low");
    assert_eq!(report.api_key, None);
    assert_eq!(report.screenshot_urls, None);
    assert_eq!(report.first_empty(), None);
}

#[test]
fn the_given_editor_version_wins_over_the_lookup() {
    let given = assemble(
        facts(),
        "d".to_string(),
        "s".to_string(),
        None,
        None,
        Some("0.50.0".to_string()),
    );
    assert_eq!(given.cursor_version, "0.50.0");
    let without_lookup = HostFacts { editor_version: None, ..facts() };
    let still_given = assemble(
        without_lookup,
        "d".to_string(),
        "s".to_string(),
        None,
        None,
        Some("0.50.0".to_string()),
    );
    assert_eq!(still_given.cursor_version, "0.50.0");
    assert_eq!(report().cursor_version, "0.45.1");
}

#[test]
fn the_system_label_has_one_space() {
    let bare = HostFacts { system_name: String::new(), system_version: String::new(), ..facts() };
    let report = assemble(bare, "d".to_string(), "s".to_string(), None, None, None);
    assert_eq!(report.os_version, " ");
    let unknown_version = HostFacts { system_version: "Unknown".to_string(), ..facts() };
    let report = assemble(unknown_version, "d".to_string(), "s".to_string(), None, None, None);
    assert_eq!(report.os_version, "Ubuntu Unknown");
}

#[test]
fn lookup_is_needed_only_without_a_given_version() {
    assert!(BugReportRequest::needs_editor_lookup(&None));
    assert!(!BugReportRequest::needs_editor_lookup(&Some("0.50.0".to_string())));
    assert!(!BugReportRequest::needs_editor_lookup(&Some(String::new())));
}

#[test]
fn first_empty_names_the_first_required_field_that_is_empty() {
    assert_eq!(report().first_empty(), None);
    let cases = [
        (BugReportRequest { app_version: String::new(), ..report() }, ReportField::AppVersion),
        (BugReportRequest { os_version: String::new(), ..report() }, ReportField::OsVersion),
        (BugReportRequest { device_model: String::new(), ..report() }, ReportField::DeviceModel),
        (
            BugReportRequest { cursor_version: String::new(), ..report() },
            ReportField::CursorVersion,
        ),
        (
            BugReportRequest { bug_description: String::new(), ..report() },
            ReportField::BugDescription,
        ),
        (
            BugReportRequest { occurrence_time: String::new(), ..report() },
            ReportField::OccurrenceTime,
        ),
        (BugReportRequest { severity: String::new(), ..report() }, ReportField::Severity),
    ];
    for (report, field) in cases {
        assert_eq!(report.first_empty(), Some(field));
    }
    let two = BugReportRequest {
        severity: String::new(),
        device_model: String::new(),
        ..report()
    };
    assert_eq!(two.first_empty(), Some(ReportField::DeviceModel));
}

#[test]
fn optional_fields_may_be_empty() {
    let report = BugReportRequest {
        api_key: Some(String::new()),
        screenshot_urls: Some(Vec::new()),
        ..report()
    };
    assert_eq!(report.first_empty(), None);
}

#[test]
fn timestamp_writes_the_moment_in_utc() {
    assert_eq!(timestamp(clock(0, 0)), Some("1970-01-01T00:00:00+00:00".to_string()));
    assert_eq!(
        timestamp(clock(1_700_000_000, 0)),
        Some("2023-11-14T22:13:20+00:00".to_string())
    );
    assert_eq!(
        timestamp(clock(1_700_000_000, 500_000_000)),
        Some("2023-11-14T22:13:20.500+00:00".to_string())
    );
    assert_eq!(
        timestamp(clock(1_700_000_000, 1_000)),
        Some("2023-11-14T22:13:20.000001+00:00".to_string())
    );
    assert_eq!(
        timestamp(clock(86_399, 999_999_999)),
        Some("1970-01-01T23:59:59.999999999+00:00".to_string())
    );
}

#[test]
fn timestamp_is_nothing_without_a_moment() {
    assert_eq!(timestamp(None), None);
    assert_eq!(timestamp(clock(u64::MAX, 0)), None);
    assert_eq!(timestamp(clock(9_223_372_036_854_775_807, 0)), None);
    assert_eq!(timestamp(clock(9_223_372_036_854_775_808, 0)), None);
    assert_eq!(timestamp(clock(0, 2_000_000_000)), None);
}

#[test]
fn observe_keeps_what_the_caller_knows() {
    let facts = observe(
        "1.4.2".to_string(),
        Some("workstation".to_string()),
        Some("0.45.1".to_string()),
        clock(1_700_000_000, 0),
    );
    assert_eq!(facts.app_version, "1.4.2");
    assert_eq!(facts.host_name, Some("workstation".to_string()));
    assert_eq!(facts.editor_version, Some("0.45.1".to_string()));
    assert_eq!(facts.time, Some("2023-11-14T22:13:20+00:00".to_string()));
    let without = observe("1.4.2".to_string(), None, None, None);
    assert_eq!(without.host_name, None);
    assert_eq!(without.editor_version, None);
    assert_eq!(without.time, None);
}

#[test]
fn observe_asks_the_operating_system() {
    let facts = observe("1.4.2".to_string(), None, None, None);
    let info = os_info::get();
    assert_eq!(facts.system_name, info.os_type().to_string());
    assert_eq!(facts.system_version, info.version().to_string());
    assert!(!facts.system_name.is_empty());
    assert!(!facts.system_version.is_empty());
}
