use std::time::Duration;

use burnin::engine::aggregate::{overall_score, overall_status};
use burnin::engine::runner::TestSuite;
use burnin::engine::test::{TestResult, TestStatus};
use burnin::engine::time::Timestamp;

fn result(score: u8, secs: u64, status: TestStatus) -> TestResult {
    TestResult {
        name: format!("unit_{}_{}", score, secs),
        status,
        score,
        duration: Duration::from_secs(secs),
        metrics: serde_json::Value::Object(serde_json::Map::new()),
        issues: vec![],
    }
}

fn at(secs: i64, nanos: u32) -> Timestamp {
    Timestamp::new(secs, nanos).unwrap()
}

#[test]
fn new_suite_is_pending_and_empty() {
    let suite = TestSuite::new();
    assert!(suite.results.is_empty());
    assert!(suite.end_time.is_none());
    assert_eq!(suite.overall_score, 0);
    assert_eq!(suite.overall_status, TestStatus::Pending);
    assert!(suite.system_info.is_none());
    assert_eq!(suite.duration, Duration::from_secs(0));
    assert!(suite.start_time.secs() > 1_600_000_000);
    assert!(suite.start_time.nanos() < 1_000_000_000);
}

#[test]
fn empty_suite_finalizes_to_zero_and_failed() {
    let mut suite = TestSuite::new();
    suite.finalize();
    assert_eq!(suite.overall_score, 0);
    assert_eq!(suite.overall_status, TestStatus::Failed);
    assert!(suite.end_time.is_some());
}

#[test]
fn weighted_score_of_three_units() {
    let mut suite = TestSuite::started_at(at(1_000, 0));
    suite.results.push(result(100, 10, TestStatus::Completed));
    suite.results.push(result(50, 20, TestStatus::Completed));
    suite.results.push(result(0, 30, TestStatus::Completed));
    suite.finalize_at(at(1_060, 0));
    assert_eq!(suite.overall_score, 33);
    assert_eq!(suite.overall_status, TestStatus::Completed);
    assert_eq!(suite.duration, Duration::from_secs(60));
    assert_eq!(suite.end_time, Some(at(1_060, 0)));
    assert_eq!(suite.start_time, at(1_000, 0));
    assert_eq!(suite.results.len(), 3);
}

#[test]
fn unweighted_mean_when_no_unit_took_a_second() {
    let results = vec![
        result(100, 0, TestStatus::Completed),
        result(51, 0, TestStatus::Completed),
        result(0, 0, TestStatus::Skipped),
    ];
    assert_eq!(overall_score(&results), 50);
    let mut timed = result(70, 0, TestStatus::Completed);
    timed.duration = Duration::new(0, 999_999_999);
    assert_eq!(overall_score(&vec![timed, result(71, 0, TestStatus::Completed)]), 70);
}

#[test]
fn weighted_mean_ignores_units_without_duration() {
    let results =
        vec![result(10, 0, TestStatus::Completed), result(90, 7, TestStatus::Completed)];
    assert_eq!(overall_score(&results), 90);
}

#[test]
fn weighted_mean_is_exact_for_huge_durations() {
    let results = vec![
        result(255, u64::MAX, TestStatus::Completed),
        result(255, u64::MAX, TestStatus::Completed),
        result(0, u64::MAX, TestStatus::Completed),
    ];
    assert_eq!(overall_score(&results), 170);
    let results = vec![
        result(100, u64::MAX, TestStatus::Completed),
        result(99, 1, TestStatus::Completed),
    ];
    assert_eq!(overall_score(&results), 99);
    let results = vec![result(200, 3, TestStatus::Completed), result(255, 1, TestStatus::Completed)];
    assert_eq!(overall_score(&results), 213);
}

#[test]
fn overall_status_prefers_failed_then_partial() {
    assert_eq!(overall_status(&vec![]), TestStatus::Failed);
    assert_eq!(overall_status(&vec![result(1, 1, TestStatus::Completed)]), TestStatus::Completed);
    assert_eq!(overall_status(&vec![result(1, 1, TestStatus::Skipped)]), TestStatus::Completed);
    assert_eq!(
        overall_status(&vec![result(1, 1, TestStatus::Completed), result(1, 1, TestStatus::Partial)]),
        TestStatus::Partial
    );
    assert_eq!(
        overall_status(&vec![
            result(1, 1, TestStatus::Partial),
            result(1, 1, TestStatus::Failed),
            result(1, 1, TestStatus::Completed),
        ]),
        TestStatus::Failed
    );
}

#[test]
fn suite_fails_exactly_when_a_result_failed() {
    let statuses = [
        TestStatus::Pending,
        TestStatus::Running,
        TestStatus::Completed,
        TestStatus::Failed,
        TestStatus::Skipped,
        TestStatus::Partial,
    ];
    for a in statuses {
        for b in statuses {
            let results = vec![result(10, 1, a), result(20, 2, b)];
            let some_failed = a == TestStatus::Failed || b == TestStatus::Failed;
            assert_eq!(overall_status(&results) == TestStatus::Failed, some_failed);
        }
    }
}

#[test]
fn finalizing_twice_changes_nothing_but_the_clock() {
    let mut suite = TestSuite::started_at(at(500, 250_000_000));
    suite.results.push(result(80, 4, TestStatus::Completed));
    suite.results.push(result(20, 12, TestStatus::Partial));
    suite.finalize_at(at(516, 0));
    let (score, status, duration) = (suite.overall_score, suite.overall_status, suite.duration);
    assert_eq!(score, 35);
    assert_eq!(status, TestStatus::Partial);
    assert_eq!(duration, Duration::new(15, 750_000_000));
    suite.finalize_at(at(516, 0));
    assert_eq!(suite.overall_score, score);
    assert_eq!(suite.overall_status, status);
    assert_eq!(suite.duration, duration);
    suite.finalize();
    assert_eq!(suite.overall_score, score);
    assert_eq!(suite.overall_status, status);
    assert_eq!(suite.results.len(), 2);
}

#[test]
fn end_before_start_gives_no_duration() {
    let mut suite = TestSuite::started_at(at(100, 5));
    suite.finalize_at(at(100, 4));
    assert_eq!(suite.duration, Duration::from_secs(0));
    let mut suite = TestSuite::started_at(at(100, 5));
    suite.finalize_at(at(-3, 0));
    assert_eq!(suite.duration, Duration::from_secs(0));
}

#[test]
fn timestamps_measure_across_the_epoch_and_borrow_nanoseconds() {
    assert_eq!(at(-1, 500_000_000).elapsed_until(&at(1, 250_000_000)), Duration::new(1, 750_000_000));
    assert_eq!(at(10, 900_000_000).elapsed_until(&at(11, 100_000_000)), Duration::new(0, 200_000_000));
    assert_eq!(at(i64::MIN, 0).elapsed_until(&at(i64::MAX, 999_999_999)), Duration::new(u64::MAX, 999_999_999));
    assert_eq!(at(7, 7).elapsed_until(&at(7, 7)), Duration::from_secs(0));
}

#[test]
fn timestamp_refuses_a_fraction_of_a_second_or_more() {
    assert!(Timestamp::new(0, 1_000_000_000).is_none());
    assert!(Timestamp::new(0, u32::MAX).is_none());
    let t = Timestamp::new(-5, 999_999_999).unwrap();
    assert_eq!(t.secs(), -5);
    assert_eq!(t.nanos(), 999_999_999);
}
