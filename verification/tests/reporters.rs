use std::time::Duration;

use burnin::engine::runner::TestSuite;
use burnin::engine::test::{IssueSeverity, TestIssue, TestResult, TestStatus};
use burnin::engine::time::Timestamp;
use burnin::reporters::csv::CsvReporter;
use burnin::reporters::json::JsonReporter;
use burnin::reporters::text::{collect_issues, column_width, TextReporter};

fn issue(severity: IssueSeverity, message: &str) -> TestIssue {
    TestIssue {
        component: "x".to_string(),
        severity,
        message: message.to_string(),
        action: Some(format!("fix {}", message)),
    }
}

fn result(name: &str, score: u8, secs: u64, issues: Vec<TestIssue>) -> TestResult {
    TestResult {
        name: name.to_string(),
        status: TestStatus::Completed,
        score,
        duration: Duration::from_secs(secs),
        metrics: serde_json::Value::Object(serde_json::Map::new()),
        issues,
    }
}

fn row(fields: [&str; 5]) -> Vec<String> {
    fields.iter().map(|f| f.to_string()).collect()
}

#[test]
fn status_and_severity_words() {
    assert_eq!(CsvReporter::status_to_string(TestStatus::Completed), "PASS");
    assert_eq!(CsvReporter::status_to_string(TestStatus::Failed), "FAIL");
    assert_eq!(CsvReporter::status_to_string(TestStatus::Partial), "PARTIAL");
    assert_eq!(CsvReporter::status_to_string(TestStatus::Skipped), "SKIPPED");
    assert_eq!(CsvReporter::status_to_string(TestStatus::Pending), "PENDING");
    assert_eq!(CsvReporter::status_to_string(TestStatus::Running), "RUNNING");
    assert_eq!(CsvReporter::severity_to_string(IssueSeverity::Critical), "CRITICAL");
    assert_eq!(CsvReporter::severity_to_string(IssueSeverity::High), "HIGH");
    assert_eq!(CsvReporter::severity_to_string(IssueSeverity::Medium), "MEDIUM");
    assert_eq!(CsvReporter::severity_to_string(IssueSeverity::Low), "LOW");
    assert_eq!(JsonReporter::status_to_string(TestStatus::Completed), "PASS");
    assert_eq!(JsonReporter::status_to_string(TestStatus::Running), "RUNNING");
    assert_eq!(JsonReporter::severity_upper(IssueSeverity::Medium), "MEDIUM");
    assert_eq!(JsonReporter::severity_lower(IssueSeverity::Critical), "critical");
    assert_eq!(JsonReporter::severity_lower(IssueSeverity::Low), "low");
}

#[test]
fn reporters_keep_what_they_are_made_with() {
    let csv = CsvReporter::new(Some("out.csv".to_string()));
    assert_eq!(csv.output_file.as_deref(), Some("out.csv"));
    let json = JsonReporter::new(None, true);
    assert!(json.output_file.is_none());
    assert!(json.verbose);
    let text = TextReporter::new(true, false);
    assert!(text.verbose);
    assert!(!text.quiet);
}

#[test]
fn json_events_stream_only_when_verbose_and_on_stdout() {
    assert!(JsonReporter::new(None, true).streams_events());
    assert!(!JsonReporter::new(None, false).streams_events());
    assert!(!JsonReporter::new(Some("r.json".to_string()), true).streams_events());
    assert!(!JsonReporter::new(Some("r.json".to_string()), false).streams_events());
}

#[test]
fn issues_field_joins_tags_with_semicolons() {
    assert_eq!(CsvReporter::join_issues(&vec![]), "");
    assert_eq!(
        CsvReporter::join_issues(&vec![issue(IssueSeverity::High, "hot")]),
        "[HIGH] hot"
    );
    assert_eq!(
        CsvReporter::join_issues(&vec![
            issue(IssueSeverity::Critical, "a"),
            issue(IssueSeverity::Low, "b"),
            issue(IssueSeverity::Medium, "c"),
        ]),
        "[CRITICAL] a; [LOW] b; [MEDIUM] c"
    );
}

#[test]
fn csv_report_lists_results_summary_and_metrics() {
    let mut suite = TestSuite::started_at(Timestamp::new(1_700_000_000, 0).unwrap());
    let mut with_metrics = result("cpu_stress", 97, 61, vec![issue(IssueSeverity::Low, "slow")]);
    let mut map = serde_json::Map::new();
    map.insert("throttling".to_string(), serde_json::Value::from(3u64));
    map.insert("label".to_string(), serde_json::Value::from("x"));
    with_metrics.metrics = serde_json::Value::Object(map);
    suite.results.push(with_metrics);
    suite.results.push(result("storage_io", 100, 5, vec![]));
    suite.finalize_at(Timestamp::new(1_700_000_075, 500_000_000).unwrap());
    let rows = CsvReporter::report_records(&suite, "bench-7");
    let expected = vec![
        row(["Test Name", "Status", "Score", "Duration (s)", "Issues"]),
        row(["cpu_stress", "PASS", "97", "61", "[LOW] slow"]),
        row(["storage_io", "PASS", "100", "5", ""]),
        row(["", "", "", "", ""]),
        row(["Summary", "", "", "", ""]),
        row(["System", "bench-7", "", "", ""]),
        row(["Test Date", "2023-11-14", "", "", ""]),
        row(["Test Time", "22:13:20", "", "", ""]),
        row(["Overall Result", "PASS", "", "", ""]),
        row(["Overall Score", "97", "", "", ""]),
        row(["Duration (s)", "75", "", "", ""]),
        row(["", "", "", "", ""]),
        row(["Metrics", "", "", "", ""]),
        row(["Test Name", "Metric", "Value", "", ""]),
        row(["cpu_stress", "label", "\"x\"", "", ""]),
        row(["cpu_stress", "throttling", "3", "", ""]),
    ];
    assert_eq!(rows, expected);
}

#[test]
fn csv_report_of_an_unfinished_suite_has_no_duration() {
    let suite = TestSuite::started_at(Timestamp::new(0, 0).unwrap());
    let rows = CsvReporter::report_records(&suite, "h");
    assert_eq!(rows.len(), 12);
    assert_eq!(rows[4], row(["Test Date", "1970-01-01", "", "", ""]));
    assert_eq!(rows[5], row(["Test Time", "00:00:00", "", "", ""]));
    assert_eq!(rows[6], row(["Overall Result", "PENDING", "", "", ""]));
    assert_eq!(rows[8], row(["Duration (s)", "0", "", "", ""]));
    assert_eq!(suite.run_secs(), 0);
}

#[test]
fn timestamps_are_written_in_utc() {
    let t = Timestamp::new(1_700_000_000, 250_000_000).unwrap();
    assert_eq!(t.date_text().as_deref(), Some("2023-11-14"));
    assert_eq!(t.clock_text().as_deref(), Some("22:13:20"));
    assert_eq!(t.rfc3339_text().as_deref(), Some("2023-11-14T22:13:20.250+00:00"));
    let too_far = Timestamp::new(i64::MAX, 0).unwrap();
    assert!(too_far.date_text().is_none());
    assert!(too_far.clock_text().is_none());
    assert!(too_far.rfc3339_text().is_none());
}

#[test]
fn durations_are_written_in_hours_minutes_seconds() {
    let reporter = TextReporter::new(false, false);
    assert_eq!(reporter.format_duration(Duration::from_secs(0)), "0s");
    assert_eq!(reporter.format_duration(Duration::from_secs(45)), "45s");
    assert_eq!(reporter.format_duration(Duration::from_secs(60)), "1m 0s");
    assert_eq!(reporter.format_duration(Duration::from_secs(200)), "3m 20s");
    assert_eq!(reporter.format_duration(Duration::from_secs(3600)), "1h 0m 0s");
    assert_eq!(reporter.format_duration(Duration::from_secs(7205)), "2h 0m 5s");
    assert_eq!(reporter.format_duration(Duration::new(59, 999_999_999)), "59s");
    assert_eq!(reporter.format_duration(Duration::from_secs(360_000)), "100h 0m 0s");
}

#[test]
fn status_labels_carry_their_signs() {
    let reporter = TextReporter::new(false, false);
    assert_eq!(reporter.format_status(TestStatus::Completed), "✓ PASS");
    assert_eq!(reporter.format_status(TestStatus::Failed), "✗ FAIL");
    assert_eq!(reporter.format_status(TestStatus::Partial), "⚠ PARTIAL");
    assert_eq!(reporter.format_status(TestStatus::Skipped), "⏸ SKIPPED");
    assert_eq!(reporter.format_status(TestStatus::Pending), "⋯ PENDING");
    assert_eq!(reporter.format_status(TestStatus::Running), "⟳ RUNNING");
}

#[test]
fn issues_are_gathered_in_the_order_of_the_results() {
    let results = vec![
        result("a", 1, 1, vec![issue(IssueSeverity::Low, "a1"), issue(IssueSeverity::High, "a2")]),
        result("b", 1, 1, vec![]),
        result("c", 1, 1, vec![issue(IssueSeverity::Critical, "c1")]),
    ];
    let gathered = collect_issues(&results);
    let messages: Vec<&str> = gathered.iter().map(|i| i.message.as_str()).collect();
    assert_eq!(messages, vec!["a1", "a2", "c1"]);
    assert_eq!(gathered[1].severity, IssueSeverity::High);
    assert_eq!(gathered[1].action.as_deref(), Some("fix a2"));
    assert_eq!(gathered[1].component, "x");
}

#[test]
fn few_issues_are_all_recommended_by_severity() {
    let issues = vec![
        issue(IssueSeverity::Low, "l1"),
        issue(IssueSeverity::Critical, "c1"),
        issue(IssueSeverity::Medium, "m1"),
        issue(IssueSeverity::High, "h1"),
        issue(IssueSeverity::Critical, "c2"),
    ];
    let chosen = TextReporter::select_recommendations(&issues);
    let names = |v: &Vec<TestIssue>| v.iter().map(|i| i.message.clone()).collect::<Vec<_>>();
    assert_eq!(names(&chosen.critical), vec!["c1", "c2"]);
    assert_eq!(names(&chosen.high), vec!["h1"]);
    assert_eq!(names(&chosen.other), vec!["l1", "m1"]);
}

#[test]
fn many_issues_are_cut_to_two_two_and_one() {
    let issues = vec![
        issue(IssueSeverity::Low, "l1"),
        issue(IssueSeverity::Critical, "c1"),
        issue(IssueSeverity::Medium, "m1"),
        issue(IssueSeverity::High, "h1"),
        issue(IssueSeverity::Critical, "c2"),
        issue(IssueSeverity::Critical, "c3"),
        issue(IssueSeverity::High, "h2"),
        issue(IssueSeverity::High, "h3"),
    ];
    let chosen = TextReporter::select_recommendations(&issues);
    let names = |v: &Vec<TestIssue>| v.iter().map(|i| i.message.clone()).collect::<Vec<_>>();
    assert_eq!(names(&chosen.critical), vec!["c1", "c2"]);
    assert_eq!(names(&chosen.high), vec!["h1", "h2"]);
    assert_eq!(names(&chosen.other), vec!["l1"]);
    let six_low: Vec<TestIssue> = (0..6).map(|_| issue(IssueSeverity::Low, "l")).collect();
    let chosen = TextReporter::select_recommendations(&six_low);
    assert_eq!(chosen.critical.len(), 0);
    assert_eq!(chosen.high.len(), 0);
    assert_eq!(chosen.other.len(), 1);
}

#[test]
fn name_column_is_as_wide_as_the_longest_name() {
    assert_eq!(column_width(&vec![]), 10);
    assert_eq!(column_width(&vec![3]), 3);
    assert_eq!(column_width(&vec![3, 17, 9]), 17);
    assert_eq!(column_width(&vec![0, 0]), 0);
}
