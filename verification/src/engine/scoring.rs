//! The scoring and issue engine: from the final metrics of a workload to its
//! score, its issues and its status.
//!
//! Every score starts at 100. Each violated threshold takes a penalty of its
//! own, capped before the penalties are summed, and the result is kept within
//! 0 to 100. Each violated threshold that deserves a remark adds one issue.
//! The status is `Failed` when any issue is critical, else `Completed`.
//!
//! Measured rates and ratios are whole numbers of thousandths of their unit:
//! a utilization of 87.5 % is 87 500, a temperature of 80 °C is 80 000.

use vstd::prelude::*;
use vstd::string::*;
use std::time::Duration;
use crate::engine::test::issue_texts;
use crate::engine::test::IssueSeverity;
use crate::engine::test::IssueText;
use crate::engine::test::TestIssue;
use crate::engine::test::TestResult;
use crate::engine::test::TestStatus;
use crate::engine::text::decimal_digits;
use crate::engine::text::decimal_text;
use crate::engine::text::thousandths_digits;
use crate::engine::text::thousandths_text;

verus! {

/// A penalty, limited to its cap.
pub open spec fn capped(penalty: int, cap: int) -> int {
    if penalty > cap {
        cap
    } else {
        penalty
    }
}

/// The score that is left of 100 after the penalties, never below 0.
pub open spec fn score_after(penalties: int) -> int {
    if penalties >= 100 {
        0
    } else if penalties <= 0 {
        100
    } else {
        100 - penalties
    }
}

/// An issue, when its condition holds.
pub open spec fn issue_if(condition: bool, issue: IssueText) -> Seq<IssueText> {
    if condition {
        seq![issue]
    } else {
        Seq::empty()
    }
}

/// Whether some issue is critical.
pub open spec fn any_critical(issues: Seq<IssueText>) -> bool {
    exists|i: int| 0 <= i < issues.len() && (#[trigger] issues[i]).severity == IssueSeverity::Critical
}

/// The status that a list of issues calls for.
pub open spec fn status_for(issues: Seq<IssueText>) -> TestStatus {
    if any_critical(issues) {
        TestStatus::Failed
    } else {
        TestStatus::Completed
    }
}

/// What the engine decides for one workload.
pub struct Verdict {
    pub score: u8,
    pub status: TestStatus,
    pub issues: Vec<TestIssue>,
}

impl Verdict {
    /// Whether `self` holds the given score and issues and the status they
    /// call for.
    pub open spec fn holds(self, score: int, issues: Seq<IssueText>) -> bool {
        &&& self.score == score
        &&& issue_texts(self.issues@) == issues
        &&& self.status == status_for(issues)
    }

    /// The result of a workload from its verdict, its name, the time it took
    /// and the metrics it measured.
    pub fn into_result(self, name: &str, elapsed: Duration, metrics: serde_json::Value) -> (r:
        TestResult)
        ensures
            r.name@ == name@,
            r.status == self.status,
            r.score == self.score,
            r.duration == elapsed,
            r.metrics == metrics,
            r.issues == self.issues,
    {
        TestResult {
            name: String::from_str(name),
            status: self.status,
            score: self.score,
            duration: elapsed,
            metrics,
            issues: self.issues,
        }
    }
}

/// The status that a list of issues calls for.
pub fn status_from_issues(issues: &Vec<TestIssue>) -> (status: TestStatus)
    ensures
        status == status_for(issue_texts(issues@)),
{
    let mut i: usize = 0;
    while i < issues.len()
        invariant
            i <= issues.len(),
            forall|j: int|
                0 <= j < i ==> (#[trigger] issue_texts(issues@)[j]).severity
                    != IssueSeverity::Critical,
        decreases issues.len() - i,
    {
        if matches!(issues[i].severity, IssueSeverity::Critical) {
            assert(issue_texts(issues@)[i as int].severity == IssueSeverity::Critical);
            return TestStatus::Failed;
        }
        i = i + 1;
    }
    TestStatus::Completed
}

/// Builds an issue with a proposed remedy.
fn issue(component: &str, severity: IssueSeverity, message: String, action: &str) -> (made: TestIssue)
    ensures
        made.text() == (IssueText {
            component: component@,
            severity,
            message: message@,
            action: Some(action@),
        }),
{
    TestIssue {
        component: String::from_str(component),
        severity,
        message,
        action: Some(String::from_str(action)),
    }
}

/// Adds an issue behind the others.
fn add_issue(issues: &mut Vec<TestIssue>, found: TestIssue)
    ensures
        issue_texts(final(issues)@) == issue_texts(old(issues)@) + seq![found.text()],
{
    issues.push(found);
    assert(issue_texts(issues@) =~= issue_texts(old(issues)@) + seq![found.text()]);
}

/// Closes a verdict over the penalties and issues found.
fn conclude(penalties: u64, issues: Vec<TestIssue>) -> (verdict: Verdict)
    ensures
        verdict.holds(score_after(penalties as int), issue_texts(issues@)),
        verdict.issues == issues,
{
    let score: u8 = if penalties >= 100 {
        0
    } else {
        (100 - penalties) as u8
    };
    let status = status_from_issues(&issues);
    Verdict { score, status, issues }
}

/// The penalty for falling short of a target: one point for each full `step`
/// that `measured` lies below `target`, up to `cap`.
pub open spec fn shortfall_penalty(measured: int, target: int, step: int, cap: int) -> int {
    if measured < target {
        capped((target - measured) / step, cap)
    } else {
        0
    }
}

/// The penalty for exceeding a limit: one point for each full `step` that
/// `measured` lies above `limit`, up to `cap`.
pub open spec fn excess_penalty(measured: int, limit: int, step: int, cap: int) -> int {
    if measured > limit {
        capped((measured - limit) / step, cap)
    } else {
        0
    }
}

/// The penalty for a count of events: `each` points for every event, up to `cap`.
pub open spec fn count_penalty(count: int, each: int, cap: int) -> int {
    capped(count * each, cap)
}

fn shortfall(measured: u64, target: u64, step: u64, cap: u64) -> (penalty: u64)
    requires
        step > 0,
    ensures
        penalty == shortfall_penalty(measured as int, target as int, step as int, cap as int),
        penalty <= cap,
{
    if measured < target {
        let raw = (target - measured) / step;
        if raw > cap {
            cap
        } else {
            raw
        }
    } else {
        0
    }
}

fn excess(measured: u64, limit: u64, step: u64, cap: u64) -> (penalty: u64)
    requires
        step > 0,
    ensures
        penalty == excess_penalty(measured as int, limit as int, step as int, cap as int),
        penalty <= cap,
{
    if measured > limit {
        let raw = (measured - limit) / step;
        if raw > cap {
            cap
        } else {
            raw
        }
    } else {
        0
    }
}

fn per_count(count: u64, each: u64, cap: u64) -> (penalty: u64)
    requires
        each > 0,
    ensures
        penalty == count_penalty(count as int, each as int, cap as int),
        penalty <= cap,
{
    if count > cap / each {
        assert(count * each > cap) by (nonlinear_arith)
            requires
                count > cap / each,
                each > 0,
        ;
        cap
    } else {
        assert(count * each <= cap) by (nonlinear_arith)
            requires
                count <= cap / each,
                each > 0,
        ;
        count * each
    }
}

/// Final metrics of the compute workload.
pub struct CpuMetrics {
    /// How often the processor was seen throttling.
    pub throttling_events: u64,
    /// Average utilization, in thousandths of a percent.
    pub utilization: u64,
}

/// The penalties of the compute workload: one point for each throttling
/// event up to 20, and one for every two percent of utilization below 90 %.
pub open spec fn cpu_penalties(m: CpuMetrics) -> int {
    count_penalty(m.throttling_events as int, 1, 20) + shortfall_penalty(
        m.utilization as int,
        90_000,
        2_000,
        45,
    )
}

/// The issues of the compute workload.
pub open spec fn cpu_issues(m: CpuMetrics) -> Seq<IssueText> {
    issue_if(
        m.throttling_events > 5,
        IssueText {
            component: "cpu"@,
            severity: IssueSeverity::Medium,
            message: "CPU thermal throttling detected ("@ + decimal_digits(
                m.throttling_events as nat,
            ) + " events)"@,
            action: Some("Check cooling system and airflow"@),
        },
    ) + issue_if(
        m.utilization < 80_000,
        IssueText {
            component: "cpu"@,
            severity: IssueSeverity::Low,
            message: "CPU utilization lower than expected ("@ + thousandths_digits(
                m.utilization as nat,
            ) + "%)"@,
            action: Some("Check for CPU resource limits or contention"@),
        },
    )
}

/// Scores the compute workload.
pub fn score_cpu(m: &CpuMetrics) -> (verdict: Verdict)
    ensures
        verdict.holds(score_after(cpu_penalties(*m)), cpu_issues(*m)),
{
    let penalties = per_count(m.throttling_events, 1, 20) + shortfall(m.utilization, 90_000, 2_000, 45);
    let mut issues: Vec<TestIssue> = Vec::new();
    assert(issue_texts(issues@) =~= Seq::<IssueText>::empty());
    if m.throttling_events > 5 {
        let message = String::from_str("CPU thermal throttling detected (").concat(
            decimal_text(m.throttling_events).as_str(),
        ).concat(" events)");
        add_issue(
            &mut issues,
            issue("cpu", IssueSeverity::Medium, message, "Check cooling system and airflow"),
        );
    }
    if m.utilization < 80_000 {
        let message = String::from_str("CPU utilization lower than expected (").concat(
            thousandths_text(m.utilization).as_str(),
        ).concat("%)");
        add_issue(
            &mut issues,
            issue("cpu", IssueSeverity::Low, message, "Check for CPU resource limits or contention"),
        );
    }
    assert(issue_texts(issues@) =~= cpu_issues(*m));
    conclude(penalties, issues)
}

/// Final metrics of the memory workload.
pub struct MemoryMetrics {
    /// How many bit-pattern mismatches were seen.
    pub error_count: u64,
    /// Sequential bandwidth, in thousandths of a MB/s.
    pub bandwidth: u64,
    /// Whether the sequential access test passed.
    pub sequential_ok: bool,
    /// Whether the random access test passed.
    pub random_ok: bool,
    /// Whether the walking-bit test passed.
    pub walking_ok: bool,
    /// Whether the multi-threaded access test passed.
    pub threaded_ok: bool,
}

/// The score of the memory workload. Errors are not scored in proportion:
/// with any hardware error the score is 0. Without errors, one point is taken
/// for every 100 MB/s of bandwidth below 1000 MB/s, up to 20.
pub open spec fn memory_score(m: MemoryMetrics) -> int {
    if m.error_count > 0 {
        0
    } else {
        score_after(shortfall_penalty(m.bandwidth as int, 1_000_000, 100_000, 20))
    }
}

/// The issues of the memory workload.
pub open spec fn memory_issues(m: MemoryMetrics) -> Seq<IssueText> {
    issue_if(
        m.error_count > 0,
        IssueText {
            component: "memory"@,
            severity: IssueSeverity::Critical,
            message: "Memory errors detected ("@ + decimal_digits(m.error_count as nat)
                + " errors)"@,
            action: Some(
                "Run extended memory diagnostics and consider replacing memory modules"@,
            ),
        },
    ) + issue_if(
        !m.sequential_ok,
        IssueText {
            component: "memory"@,
            severity: IssueSeverity::High,
            message: "Sequential memory access test failed"@,
            action: Some("Check for memory corruption or hardware issues"@),
        },
    ) + issue_if(
        !m.random_ok,
        IssueText {
            component: "memory"@,
            severity: IssueSeverity::Medium,
            message: "Random memory access test failed"@,
            action: Some("Check for memory addressing issues"@),
        },
    ) + issue_if(
        !m.walking_ok,
        IssueText {
            component: "memory"@,
            severity: IssueSeverity::High,
            message: "Walking bit pattern test failed"@,
            action: Some("Check for stuck bits in memory"@),
        },
    ) + issue_if(
        !m.threaded_ok,
        IssueText {
            component: "memory"@,
            severity: IssueSeverity::Medium,
            message: "Multi-threaded memory access test failed"@,
            action: Some("Check for memory contention issues"@),
        },
    )
}

/// Scores the memory workload.
pub fn score_memory(m: &MemoryMetrics) -> (verdict: Verdict)
    ensures
        verdict.holds(memory_score(*m), memory_issues(*m)),
        m.error_count > 0 ==> verdict.score == 0 && verdict.status == TestStatus::Failed,
{
    let penalties = if m.error_count > 0 {
        100
    } else {
        shortfall(m.bandwidth, 1_000_000, 100_000, 20)
    };
    let mut issues: Vec<TestIssue> = Vec::new();
    assert(issue_texts(issues@) =~= Seq::<IssueText>::empty());
    if m.error_count > 0 {
        let message = String::from_str("Memory errors detected (").concat(
            decimal_text(m.error_count).as_str(),
        ).concat(" errors)");
        add_issue(
            &mut issues,
            issue(
                "memory",
                IssueSeverity::Critical,
                message,
                "Run extended memory diagnostics and consider replacing memory modules",
            ),
        );
    }
    if !m.sequential_ok {
        add_issue(
            &mut issues,
            issue(
                "memory",
                IssueSeverity::High,
                String::from_str("Sequential memory access test failed"),
                "Check for memory corruption or hardware issues",
            ),
        );
    }
    if !m.random_ok {
        add_issue(
            &mut issues,
            issue(
                "memory",
                IssueSeverity::Medium,
                String::from_str("Random memory access test failed"),
                "Check for memory addressing issues",
            ),
        );
    }
    if !m.walking_ok {
        add_issue(
            &mut issues,
            issue(
                "memory",
                IssueSeverity::High,
                String::from_str("Walking bit pattern test failed"),
                "Check for stuck bits in memory",
            ),
        );
    }
    if !m.threaded_ok {
        add_issue(
            &mut issues,
            issue(
                "memory",
                IssueSeverity::Medium,
                String::from_str("Multi-threaded memory access test failed"),
                "Check for memory contention issues",
            ),
        );
    }
    assert(issue_texts(issues@) =~= memory_issues(*m));
    proof {
        if m.error_count > 0 {
            assert(memory_issues(*m)[0].severity == IssueSeverity::Critical);
        }
    }
    conclude(penalties, issues)
}

/// Final metrics of the storage workload.
pub struct StorageMetrics {
    /// How many I/O errors were seen.
    pub error_count: u64,
    /// Sequential read throughput, in thousandths of a MB/s.
    pub sequential_read: u64,
    /// Sequential write throughput, in thousandths of a MB/s.
    pub sequential_write: u64,
    /// Random read rate, in thousandths of an operation per second.
    pub random_read: u64,
    /// Random write rate, in thousandths of an operation per second.
    pub random_write: u64,
}

/// The penalties of the storage workload: five points for each error up to
/// 50, and up to 10 points each for sequential reads below 50 MB/s,
/// sequential writes below 20 MB/s, random reads below 1000 operations per
/// second and random writes below 500.
pub open spec fn storage_penalties(m: StorageMetrics) -> int {
    count_penalty(m.error_count as int, 5, 50) + shortfall_penalty(
        m.sequential_read as int,
        50_000,
        5_000,
        10,
    ) + shortfall_penalty(m.sequential_write as int, 20_000, 2_000, 10) + shortfall_penalty(
        m.random_read as int,
        1_000_000,
        100_000,
        10,
    ) + shortfall_penalty(m.random_write as int, 500_000, 50_000, 10)
}

/// The issues of the storage workload.
pub open spec fn storage_issues(m: StorageMetrics) -> Seq<IssueText> {
    issue_if(
        m.error_count > 0,
        IssueText {
            component: "storage"@,
            severity: if m.error_count > 5 {
                IssueSeverity::Critical
            } else {
                IssueSeverity::High
            },
            message: "Storage I/O errors detected ("@ + decimal_digits(m.error_count as nat)
                + " errors)"@,
            action: Some("Check disk health and file system integrity"@),
        },
    ) + issue_if(
        m.sequential_read < 10_000,
        IssueText {
            component: "storage"@,
            severity: IssueSeverity::Medium,
            message: "Sequential read performance is very low ("@ + thousandths_digits(
                m.sequential_read as nat,
            ) + " MB/s)"@,
            action: Some("Check for disk issues or resource contention"@),
        },
    ) + issue_if(
        m.sequential_write < 5_000,
        IssueText {
            component: "storage"@,
            severity: IssueSeverity::Medium,
            message: "Sequential write performance is very low ("@ + thousandths_digits(
                m.sequential_write as nat,
            ) + " MB/s)"@,
            action: Some("Check for disk issues or resource contention"@),
        },
    )
}

/// Scores the storage workload.
pub fn score_storage(m: &StorageMetrics) -> (verdict: Verdict)
    ensures
        verdict.holds(score_after(storage_penalties(*m)), storage_issues(*m)),
{
    let penalties = per_count(m.error_count, 5, 50) + shortfall(m.sequential_read, 50_000, 5_000, 10)
        + shortfall(m.sequential_write, 20_000, 2_000, 10) + shortfall(
        m.random_read,
        1_000_000,
        100_000,
        10,
    ) + shortfall(m.random_write, 500_000, 50_000, 10);
    let mut issues: Vec<TestIssue> = Vec::new();
    assert(issue_texts(issues@) =~= Seq::<IssueText>::empty());
    if m.error_count > 0 {
        let severity = if m.error_count > 5 {
            IssueSeverity::Critical
        } else {
            IssueSeverity::High
        };
        let message = String::from_str("Storage I/O errors detected (").concat(
            decimal_text(m.error_count).as_str(),
        ).concat(" errors)");
        add_issue(
            &mut issues,
            issue("storage", severity, message, "Check disk health and file system integrity"),
        );
    }
    if m.sequential_read < 10_000 {
        let message = String::from_str("Sequential read performance is very low (").concat(
            thousandths_text(m.sequential_read).as_str(),
        ).concat(" MB/s)");
        add_issue(
            &mut issues,
            issue(
                "storage",
                IssueSeverity::Medium,
                message,
                "Check for disk issues or resource contention",
            ),
        );
    }
    if m.sequential_write < 5_000 {
        let message = String::from_str("Sequential write performance is very low (").concat(
            thousandths_text(m.sequential_write).as_str(),
        ).concat(" MB/s)");
        add_issue(
            &mut issues,
            issue(
                "storage",
                IssueSeverity::Medium,
                message,
                "Check for disk issues or resource contention",
            ),
        );
    }
    assert(issue_texts(issues@) =~= storage_issues(*m));
    conclude(penalties, issues)
}

/// Final metrics of the network workload.
pub struct NetworkMetrics {
    /// Average connection latency, in thousandths of a millisecond.
    pub latency: u64,
    /// Download speed, in thousandths of a Mbps.
    pub download: u64,
    /// Upload speed, in thousandths of a Mbps.
    pub upload: u64,
    /// Packet loss, in thousandths of a percent.
    pub packet_loss: u64,
    /// How many errors were seen.
    pub error_count: u64,
}

/// The penalties of the network workload: a point for every 10 ms of latency
/// above 100 ms up to 20, a point for every Mbps of download below 10 Mbps up
/// to 20, a point for every half Mbps of upload below 5 Mbps up to 10, five
/// points for every percent of packet loss above 1 % up to 30, and five points
/// for each error up to 20.
pub open spec fn network_penalties(m: NetworkMetrics) -> int {
    excess_penalty(m.latency as int, 100_000, 10_000, 20) + shortfall_penalty(
        m.download as int,
        10_000,
        1_000,
        20,
    ) + shortfall_penalty(m.upload as int, 5_000, 500, 10) + excess_penalty(
        m.packet_loss as int,
        1_000,
        200,
        30,
    ) + count_penalty(m.error_count as int, 5, 20)
}

/// The issues of the network workload.
pub open spec fn network_issues(m: NetworkMetrics) -> Seq<IssueText> {
    issue_if(
        m.latency > 200_000,
        IssueText {
            component: "network"@,
            severity: IssueSeverity::Medium,
            message: "High network latency: "@ + thousandths_digits(m.latency as nat) + " ms"@,
            action: Some("Check network connection and routing"@),
        },
    ) + issue_if(
        m.download < 5_000,
        IssueText {
            component: "network"@,
            severity: IssueSeverity::Medium,
            message: "Low download speed: "@ + thousandths_digits(m.download as nat) + " Mbps"@,
            action: Some("Check network bandwidth and connectivity"@),
        },
    ) + issue_if(
        m.packet_loss > 2_000,
        IssueText {
            component: "network"@,
            severity: IssueSeverity::High,
            message: "High packet loss: "@ + thousandths_digits(m.packet_loss as nat) + "%"@,
            action: Some("Check for network congestion or hardware issues"@),
        },
    )
}

/// Scores the network workload.
pub fn score_network(m: &NetworkMetrics) -> (verdict: Verdict)
    ensures
        verdict.holds(score_after(network_penalties(*m)), network_issues(*m)),
{
    let penalties = excess(m.latency, 100_000, 10_000, 20) + shortfall(m.download, 10_000, 1_000, 20)
        + shortfall(m.upload, 5_000, 500, 10) + excess(m.packet_loss, 1_000, 200, 30) + per_count(
        m.error_count,
        5,
        20,
    );
    let mut issues: Vec<TestIssue> = Vec::new();
    assert(issue_texts(issues@) =~= Seq::<IssueText>::empty());
    if m.latency > 200_000 {
        let message = String::from_str("High network latency: ").concat(
            thousandths_text(m.latency).as_str(),
        ).concat(" ms");
        add_issue(
            &mut issues,
            issue("network", IssueSeverity::Medium, message, "Check network connection and routing"),
        );
    }
    if m.download < 5_000 {
        let message = String::from_str("Low download speed: ").concat(
            thousandths_text(m.download).as_str(),
        ).concat(" Mbps");
        add_issue(
            &mut issues,
            issue(
                "network",
                IssueSeverity::Medium,
                message,
                "Check network bandwidth and connectivity",
            ),
        );
    }
    if m.packet_loss > 2_000 {
        let message = String::from_str("High packet loss: ").concat(
            thousandths_text(m.packet_loss).as_str(),
        ).concat("%");
        add_issue(
            &mut issues,
            issue(
                "network",
                IssueSeverity::High,
                message,
                "Check for network congestion or hardware issues",
            ),
        );
    }
    assert(issue_texts(issues@) =~= network_issues(*m));
    conclude(penalties, issues)
}

/// Final metrics of the thermal workload.
pub struct ThermalMetrics {
    /// Highest temperature seen, in thousandths of a degree Celsius.
    pub max_temperature: u64,
    /// How many readings reached the warning threshold.
    pub warning_events: u64,
    /// How many readings reached the critical threshold.
    pub critical_events: u64,
}

/// The penalty for the highest temperature: none up to the warning
/// threshold, then growing evenly to 30 points at the critical threshold, and
/// 30 beyond it. Where the critical threshold is not above the warning
/// threshold, any temperature above the warning threshold costs 30.
pub open spec fn overheat_penalty(max_temperature: int, warning: int, critical: int) -> int {
    if max_temperature <= warning {
        0
    } else if critical <= warning {
        30
    } else {
        capped((max_temperature - warning) * 30 / (critical - warning), 30)
    }
}

/// The penalties of the thermal workload: the overheat penalty, and ten
/// points for each critical reading up to 50.
pub open spec fn thermal_penalties(m: ThermalMetrics, warning: int, critical: int) -> int {
    overheat_penalty(m.max_temperature as int, warning, critical) + count_penalty(
        m.critical_events as int,
        10,
        50,
    )
}

/// The issues of the thermal workload.
pub open spec fn thermal_issues(m: ThermalMetrics) -> Seq<IssueText> {
    issue_if(
        m.critical_events > 0,
        IssueText {
            component: "thermal"@,
            severity: IssueSeverity::Critical,
            message: "Critical temperature threshold exceeded "@ + decimal_digits(
                m.critical_events as nat,
            ) + " times"@,
            action: Some("Check cooling system immediately"@),
        },
    ) + issue_if(
        m.critical_events == 0 && m.warning_events > 0,
        IssueText {
            component: "thermal"@,
            severity: IssueSeverity::High,
            message: "Warning temperature threshold exceeded "@ + decimal_digits(
                m.warning_events as nat,
            ) + " times"@,
            action: Some("Improve cooling or reduce system load"@),
        },
    ) + issue_if(
        m.max_temperature > 85_000,
        IssueText {
            component: "thermal"@,
            severity: IssueSeverity::Medium,
            message: "Maximum temperature is very high: "@ + thousandths_digits(
                m.max_temperature as nat,
            ) + "°C"@,
            action: Some("Check cooling system efficiency"@),
        },
    )
}

fn overheat(max_temperature: u64, warning: u32, critical: u32) -> (penalty: u64)
    ensures
        penalty == overheat_penalty(max_temperature as int, warning as int, critical as int),
        penalty <= 30,
{
    if max_temperature <= warning as u64 {
        0
    } else if critical <= warning {
        30
    } else {
        let over: u64 = max_temperature - warning as u64;
        let range: u64 = (critical - warning) as u64;
        if over >= range {
            assert((over * 30) / (range as int) >= 30) by (nonlinear_arith)
                requires
                    over >= range,
                    range > 0,
            ;
            30
        } else {
            assert((over * 30) / (range as int) < 30 && over * 30 <= u64::MAX) by (nonlinear_arith)
                requires
                    0 <= over < range,
                    range <= u32::MAX,
            ;
            over * 30 / range
        }
    }
}

/// Scores the thermal workload against the warning and critical thresholds,
/// both in thousandths of a degree Celsius.
pub fn score_thermal(m: &ThermalMetrics, warning: u32, critical: u32) -> (verdict: Verdict)
    ensures
        verdict.holds(
            score_after(thermal_penalties(*m, warning as int, critical as int)),
            thermal_issues(*m),
        ),
{
    let penalties = overheat(m.max_temperature, warning, critical) + per_count(
        m.critical_events,
        10,
        50,
    );
    let mut issues: Vec<TestIssue> = Vec::new();
    assert(issue_texts(issues@) =~= Seq::<IssueText>::empty());
    if m.critical_events > 0 {
        let message = String::from_str("Critical temperature threshold exceeded ").concat(
            decimal_text(m.critical_events).as_str(),
        ).concat(" times");
        add_issue(
            &mut issues,
            issue("thermal", IssueSeverity::Critical, message, "Check cooling system immediately"),
        );
    } else if m.warning_events > 0 {
        let message = String::from_str("Warning temperature threshold exceeded ").concat(
            decimal_text(m.warning_events).as_str(),
        ).concat(" times");
        add_issue(
            &mut issues,
            issue("thermal", IssueSeverity::High, message, "Improve cooling or reduce system load"),
        );
    }
    if m.max_temperature > 85_000 {
        let message = String::from_str("Maximum temperature is very high: ").concat(
            thousandths_text(m.max_temperature).as_str(),
        ).concat("°C");
        add_issue(
            &mut issues,
            issue("thermal", IssueSeverity::Medium, message, "Check cooling system efficiency"),
        );
    }
    assert(issue_texts(issues@) =~= thermal_issues(*m));
    conclude(penalties, issues)
}

/// The score of a verdict is a score: it lies within 0 to 100.
pub proof fn lemma_score_in_range(penalties: int)
    ensures
        0 <= score_after(penalties) <= 100,
{
}

/// A verdict fails exactly when one of its issues is critical, and is
/// completed otherwise.
pub proof fn lemma_status_follows_issues(issues: Seq<IssueText>)
    ensures
        status_for(issues) == TestStatus::Failed <==> any_critical(issues),
        status_for(issues) == TestStatus::Completed <==> !any_critical(issues),
{
}

/// A memory workload that saw any hardware error scores 0 and fails, whatever
/// else it measured.
pub proof fn lemma_memory_errors_are_absolute(m: MemoryMetrics)
    requires
        m.error_count > 0,
    ensures
        memory_score(m) == 0,
        status_for(memory_issues(m)) == TestStatus::Failed,
{
    assert(memory_issues(m)[0].severity == IssueSeverity::Critical);
}


} // verus!
