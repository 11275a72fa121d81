use std::sync::atomic::{AtomicUsize, Ordering};
use std::sync::{Arc, Mutex};
use std::time::Duration;

use burnin::engine::config::TestConfig;
use burnin::engine::error::BurnInError;
use burnin::engine::hardware::HardwareInfo;
use burnin::engine::interrupt::InterruptFlag;
use burnin::engine::runner::{BurnInRunner, TestSuite};
use burnin::engine::test::{BurnInTest, IssueSeverity, TestResult, TestStatus};
use burnin::reporters::Reporter;

fn no_metrics() -> serde_json::Value {
    serde_json::Value::Object(serde_json::Map::new())
}

/// What a scripted unit does when it is executed.
#[derive(Clone)]
enum Script {
    Succeed { score: u8, secs: u64, status: TestStatus },
    Fail(String),
    FailAfter(Duration),
    SucceedThenInterrupt { score: u8, secs: u64 },
}

struct ScriptedUnit {
    name: &'static str,
    script: Script,
    cleanup_fails: bool,
    flag: Arc<Mutex<Option<InterruptFlag>>>,
    log: Arc<Mutex<Vec<String>>>,
    executed: Arc<AtomicUsize>,
    cleaned: Arc<AtomicUsize>,
}

impl BurnInTest for ScriptedUnit {
    fn name(&self) -> &'static str {
        self.name
    }

    fn detect_hardware(&self) -> Result<HardwareInfo, BurnInError> {
        Err(BurnInError::HardwareFailure("no probe".to_string()))
    }

    fn estimate_duration(&self, config: &TestConfig) -> Duration {
        config.duration
    }

    fn execute(&self, _config: &TestConfig) -> Result<TestResult, BurnInError> {
        self.executed.fetch_add(1, Ordering::SeqCst);
        self.log.lock().unwrap().push(format!("execute {}", self.name));
        let ok = |score: u8, secs: u64, status: TestStatus| TestResult {
            name: self.name.to_string(),
            status,
            score,
            duration: Duration::from_secs(secs),
            metrics: no_metrics(),
            issues: vec![],
        };
        match &self.script {
            Script::Succeed { score, secs, status } => Ok(ok(*score, *secs, *status)),
            Script::Fail(text) => Err(BurnInError::InsufficientResources(text.clone())),
            Script::FailAfter(pause) => {
                let started = std::time::Instant::now();
                while started.elapsed() < *pause {
                    std::hint::spin_loop();
                }
                Err(BurnInError::TestTimeout("gave up".to_string()))
            }
            Script::SucceedThenInterrupt { score, secs } => {
                if let Some(flag) = self.flag.lock().unwrap().as_ref() {
                    flag.raise();
                }
                Ok(ok(*score, *secs, TestStatus::Completed))
            }
        }
    }

    fn cleanup(&self) -> Result<(), BurnInError> {
        self.cleaned.fetch_add(1, Ordering::SeqCst);
        self.log.lock().unwrap().push(format!("cleanup {}", self.name));
        if self.cleanup_fails {
            Err(BurnInError::IoError("temp file busy".to_string()))
        } else {
            Ok(())
        }
    }
}

struct RecordingReporter {
    log: Arc<Mutex<Vec<String>>>,
}

impl Reporter for RecordingReporter {
    fn report_start(&self, _config: &TestConfig) {
        self.log.lock().unwrap().push("start".to_string());
    }

    fn report_test_start(&self, test_name: &str) {
        self.log.lock().unwrap().push(format!("test_start {}", test_name));
    }

    fn report_test_result(&self, result: &TestResult) {
        self.log.lock().unwrap().push(format!("test_result {}", result.name));
    }

    fn report_suite_result(&self, suite: &TestSuite) {
        self.log.lock().unwrap().push(format!("suite {}", suite.results.len()));
    }

    fn report_warning(&self, message: &str) {
        self.log.lock().unwrap().push(format!("warning {}", message));
    }

    fn report_info(&self, message: &str) {
        self.log.lock().unwrap().push(format!("info {}", message));
    }
}

struct Fixture {
    flag: Arc<Mutex<Option<InterruptFlag>>>,
    log: Arc<Mutex<Vec<String>>>,
    executed: Arc<AtomicUsize>,
    cleaned: Arc<AtomicUsize>,
}

impl Fixture {
    fn new() -> Fixture {
        Fixture {
            flag: Arc::new(Mutex::new(None)),
            log: Arc::new(Mutex::new(Vec::new())),
            executed: Arc::new(AtomicUsize::new(0)),
            cleaned: Arc::new(AtomicUsize::new(0)),
        }
    }

    fn unit(&self, name: &'static str, script: Script, cleanup_fails: bool) -> Box<dyn BurnInTest> {
        Box::new(ScriptedUnit {
            name,
            script,
            cleanup_fails,
            flag: self.flag.clone(),
            log: self.log.clone(),
            executed: self.executed.clone(),
            cleaned: self.cleaned.clone(),
        })
    }

    fn runner(&self, units: Vec<Box<dyn BurnInTest>>, config: TestConfig) -> BurnInRunner {
        let runner = BurnInRunner::new(
            units,
            config,
            Box::new(RecordingReporter { log: self.log.clone() }),
        );
        *self.flag.lock().unwrap() = Some(runner.interrupt_flag());
        runner
    }

    fn log(&self) -> Vec<String> {
        self.log.lock().unwrap().clone()
    }
}

fn pass(score: u8, secs: u64) -> Script {
    Script::Succeed { score, secs, status: TestStatus::Completed }
}

#[test]
fn sequential_run_keeps_registration_order_and_weights_by_duration() {
    let fx = Fixture::new();
    let units = vec![
        fx.unit("storage_io", pass(100, 10), false),
        fx.unit("network", pass(50, 20), false),
        fx.unit("thermal_monitor", pass(0, 30), false),
    ];
    let mut runner = fx.runner(units, TestConfig::default());
    let suite = runner.execute_sequential().unwrap();
    let names: Vec<&str> = suite.results.iter().map(|r| r.name.as_str()).collect();
    assert_eq!(names, vec!["storage_io", "network", "thermal_monitor"]);
    assert_eq!(suite.overall_score, 33);
    assert_eq!(suite.overall_status, TestStatus::Completed);
    assert!(suite.end_time.is_some());
}

#[test]
fn interrupt_after_first_unit_stops_the_sequential_run() {
    let fx = Fixture::new();
    let units = vec![
        fx.unit("one", Script::SucceedThenInterrupt { score: 80, secs: 5 }, false),
        fx.unit("two", pass(10, 5), false),
        fx.unit("three", Script::Fail("never runs".to_string()), false),
    ];
    let mut runner = fx.runner(units, TestConfig::default());
    let suite = runner.execute_sequential().unwrap();
    assert_eq!(suite.results.len(), 1);
    assert_eq!(suite.results[0].name, "one");
    assert_eq!(suite.overall_score, 80);
    assert_eq!(suite.overall_status, TestStatus::Completed);
    assert_eq!(fx.executed.load(Ordering::SeqCst), 1);
    assert_eq!(fx.cleaned.load(Ordering::SeqCst), 1);
}

#[test]
fn execute_error_becomes_a_failed_result_with_a_critical_issue() {
    let fx = Fixture::new();
    let units = vec![fx.unit("storage_io", Script::Fail("disk full".to_string()), false)];
    let mut runner = fx.runner(units, TestConfig::default());
    let suite = runner.execute_sequential().unwrap();
    assert_eq!(suite.results.len(), 1);
    let result = &suite.results[0];
    assert_eq!(result.name, "storage_io");
    assert_eq!(result.status, TestStatus::Failed);
    assert_eq!(result.score, 0);
    assert_eq!(result.issues.len(), 1);
    assert_eq!(result.issues[0].severity, IssueSeverity::Critical);
    assert_eq!(result.issues[0].component, "storage_io");
    assert!(result.issues[0].message.contains("disk full"));
    assert_eq!(result.issues[0].message, "Test failed: Insufficient resources: disk full");
    assert_eq!(result.issues[0].action.as_deref(), Some("Check system logs for details"));
    assert_eq!(result.metrics, no_metrics());
    assert_eq!(suite.overall_status, TestStatus::Failed);
    assert_eq!(suite.overall_score, 0);
}

#[test]
fn cleanup_runs_once_for_every_executed_unit() {
    let fx = Fixture::new();
    let units = vec![
        fx.unit("a", pass(90, 1), false),
        fx.unit("b", Script::Fail("boom".to_string()), false),
        fx.unit("c", pass(70, 1), true),
    ];
    let mut runner = fx.runner(units, TestConfig::default());
    let suite = runner.execute_sequential().unwrap();
    assert_eq!(suite.results.len(), 3);
    assert_eq!(fx.executed.load(Ordering::SeqCst), 3);
    assert_eq!(fx.cleaned.load(Ordering::SeqCst), 3);
    let log = fx.log();
    let calls: Vec<&String> =
        log.iter().filter(|l| l.starts_with("execute") || l.starts_with("cleanup")).collect();
    assert_eq!(
        calls,
        vec!["execute a", "cleanup a", "execute b", "cleanup b", "execute c", "cleanup c"]
    );
    assert!(log.contains(
        &"warning Failed to clean up after test c: IO error: temp file busy".to_string()
    ));
    assert_eq!(suite.results[2].status, TestStatus::Completed);
}

#[test]
fn reporter_is_called_at_the_fixed_points_of_a_sequential_run() {
    let fx = Fixture::new();
    let units = vec![fx.unit("only", pass(100, 1), false)];
    let mut runner = fx.runner(units, TestConfig::default());
    runner.execute_sequential().unwrap();
    assert_eq!(
        fx.log(),
        vec![
            "start",
            "test_start only",
            "execute only",
            "test_result only",
            "cleanup only",
            "suite 1",
        ]
    );
}

#[test]
fn parallel_run_groups_cpu_and_memory_units() {
    let fx = Fixture::new();
    let units = vec![
        fx.unit("storage_io", pass(100, 1), false),
        fx.unit("cpu_stress", pass(100, 1), false),
        fx.unit("thermal_monitor", pass(100, 1), false),
        fx.unit("memory_validation", pass(100, 1), false),
    ];
    let mut runner = fx.runner(units, TestConfig::default());
    let suite = runner.execute_parallel().unwrap();
    assert_eq!(suite.results.len(), 4);
    let mut group: Vec<&str> = suite.results[..2].iter().map(|r| r.name.as_str()).collect();
    group.sort();
    assert_eq!(group, vec!["cpu_stress", "memory_validation"]);
    let rest: Vec<&str> = suite.results[2..].iter().map(|r| r.name.as_str()).collect();
    assert_eq!(rest, vec!["storage_io", "thermal_monitor"]);
    assert_eq!(fx.cleaned.load(Ordering::SeqCst), 4);
    assert!(fx.log().contains(&"info Running CPU and memory tests in parallel...".to_string()));
    assert_eq!(suite.overall_status, TestStatus::Completed);
    assert_eq!(suite.overall_score, 100);
}

#[test]
fn parallel_run_without_group_members_says_nothing_of_parallelism() {
    let fx = Fixture::new();
    let units = vec![fx.unit("storage_io", pass(60, 0), false), fx.unit("network", pass(41, 0), false)];
    let mut runner = fx.runner(units, TestConfig::default());
    let suite = runner.execute_parallel().unwrap();
    assert_eq!(suite.results.len(), 2);
    assert!(!fx.log().iter().any(|l| l.starts_with("info")));
    assert_eq!(suite.overall_score, 50);
}

#[test]
fn interrupted_before_launch_leaves_an_empty_failed_suite() {
    let fx = Fixture::new();
    let units = vec![fx.unit("cpu_stress", pass(100, 1), false), fx.unit("network", pass(100, 1), false)];
    let mut runner = fx.runner(units, TestConfig::default());
    runner.interrupt_flag().raise();
    let suite = runner.execute_parallel().unwrap();
    assert_eq!(suite.results.len(), 0);
    assert_eq!(suite.overall_score, 0);
    assert_eq!(suite.overall_status, TestStatus::Failed);
    assert_eq!(fx.executed.load(Ordering::SeqCst), 0);
    assert_eq!(fx.cleaned.load(Ordering::SeqCst), 0);
}

#[test]
fn failed_handler_installation_is_fatal_and_runs_nothing() {
    let fx = Fixture::new();
    let units = vec![fx.unit("cpu_stress", pass(100, 1), false)];
    let mut runner = fx.runner(units, TestConfig::default());
    let outcome = runner.execute_with_recovery(Err("handler already set".to_string()));
    match outcome {
        Err(BurnInError::UnexpectedError(text)) => {
            assert_eq!(text, "Failed to set Ctrl-C handler: handler already set")
        }
        _ => panic!("the run must not start"),
    }
    assert_eq!(fx.executed.load(Ordering::SeqCst), 0);
    assert!(fx.log().is_empty());
}

#[test]
fn recovery_run_picks_the_strategy_from_the_enabled_domains() {
    let fx = Fixture::new();
    let units = vec![fx.unit("cpu_stress", pass(100, 1), false), fx.unit("storage_io", pass(100, 1), false)];
    let mut runner = fx.runner(units, TestConfig::default());
    let suite = runner.execute_with_recovery(Ok(())).unwrap();
    assert_eq!(suite.results.len(), 2);
    assert!(fx.log().contains(&"info Running CPU and memory tests in parallel...".to_string()));

    let fx = Fixture::new();
    let units = vec![fx.unit("cpu_stress", pass(100, 1), false), fx.unit("storage_io", pass(100, 1), false)];
    let mut config = TestConfig::default();
    config.memory_enabled = false;
    let mut runner = fx.runner(units, config);
    let suite = runner.execute_with_recovery(Ok(())).unwrap();
    assert_eq!(suite.results.len(), 2);
    assert!(!fx.log().iter().any(|l| l.starts_with("info")));
}

#[test]
fn execute_all_reports_start_and_closing_status() {
    let fx = Fixture::new();
    let units = vec![fx.unit("storage_io", Script::Succeed { score: 40, secs: 1, status: TestStatus::Partial }, false)];
    let mut config = TestConfig::default();
    config.cpu_enabled = false;
    let mut runner = fx.runner(units, config);
    let suite = runner.execute_all(Ok(())).unwrap();
    assert_eq!(suite.overall_status, TestStatus::Partial);
    let log = fx.log();
    assert_eq!(log.first().unwrap(), "info Starting burn-in tests");
    assert_eq!(log.last().unwrap(), "info All tests completed with status: Partial");
}

#[test]
fn failed_unit_is_charged_the_time_it_took() {
    let fx = Fixture::new();
    let units = vec![fx.unit("slow", Script::FailAfter(Duration::from_millis(30)), false)];
    let mut runner = fx.runner(units, TestConfig::default());
    let suite = runner.execute_sequential().unwrap();
    assert_eq!(suite.results.len(), 1);
    assert!(suite.results[0].duration >= Duration::from_millis(30));
    assert!(suite.results[0].duration < Duration::from_secs(10));
    assert_eq!(suite.results[0].issues[0].message, "Test failed: Test timeout: gave up");
    assert!(!runner.is_interrupted());
    runner.interrupt_flag().raise();
    assert!(runner.is_interrupted());
}
