//! The suite of results of one run, and the scheduler that produces it.

use vstd::prelude::*;
use vstd::string::*;
use std::time::Duration;
use rayon::iter::IntoParallelRefIterator;
use rayon::iter::ParallelIterator;
use crate::engine::aggregate::overall_score;
use crate::engine::aggregate::overall_status;
use crate::engine::aggregate::suite_score;
use crate::engine::aggregate::suite_status;
use crate::engine::config::TestConfig;
use crate::engine::error::BurnInError;
use crate::engine::error::Result;
use crate::engine::hardware::SystemInfo;
use crate::engine::interrupt::InterruptFlag;
use crate::engine::test::BurnInTest;
use crate::engine::test::TestResult;
use crate::engine::test::TestStatus;
use crate::engine::time::duration_secs;
use crate::engine::time::duration_subsec_nanos;
use crate::engine::time::elapsed_secs;
use crate::engine::time::elapsed_subsec_nanos;
use crate::engine::time::stopwatch_elapsed;
use crate::engine::time::stopwatch_start;
use crate::engine::time::utc_now;
use crate::engine::time::Timestamp;
use crate::reporters::Reporter;

verus! {

/// Collection of test results
#[derive(Debug)]
pub struct TestSuite {
    pub results: Vec<TestResult>,
    pub start_time: Timestamp,
    pub end_time: Option<Timestamp>,
    pub overall_score: u8,
    pub overall_status: TestStatus,
    pub system_info: Option<SystemInfo>,
    pub duration: Duration,
}

impl TestSuite {
    /// Whether `self` is a suite that has just been started at `start`: no
    /// results, no end, nothing scored yet.
    pub open spec fn is_started_at(self, start: Timestamp) -> bool {
        &&& self.results@.len() == 0
        &&& self.start_time == start
        &&& self.end_time is None
        &&& self.overall_score == 0
        &&& self.overall_status == TestStatus::Pending
        &&& self.system_info is None
        &&& duration_secs(self.duration) == 0
        &&& duration_subsec_nanos(self.duration) == 0
    }

    /// Whether `self` is what finalizing `before` at the time `end` gives: the
    /// same results, start and system, the end recorded, the time between
    /// start and end as the duration, and the overall score and status of the
    /// results.
    pub open spec fn is_finalized_from(self, before: TestSuite, end: Timestamp) -> bool {
        &&& self.results == before.results
        &&& self.start_time == before.start_time
        &&& self.system_info == before.system_info
        &&& self.end_time == Some(end)
        &&& duration_secs(self.duration) == elapsed_secs(before.start_time, end)
        &&& duration_subsec_nanos(self.duration) == elapsed_subsec_nanos(before.start_time, end)
        &&& self.overall_score == suite_score(before.results@)
        &&& self.overall_status == suite_status(before.results@)
    }

    /// The whole seconds from the start of the suite to its end; 0 while it
    /// has not ended.
    pub open spec fn spec_run_secs(self) -> int {
        match self.end_time {
            Some(end) => elapsed_secs(self.start_time, end),
            None => 0,
        }
    }

    /// The whole seconds from the start of the suite to its end; 0 while it
    /// has not ended.
    pub fn run_secs(&self) -> (secs: u64)
        ensures
            secs == self.spec_run_secs(),
    {
        match &self.end_time {
            Some(end) => self.start_time.elapsed_until(end).as_secs(),
            None => 0,
        }
    }

    /// Create a new test suite, started now.
    pub fn new() -> (suite: TestSuite)
        ensures
            suite.is_started_at(suite.start_time),
    {
        TestSuite::started_at(utc_now())
    }

    /// Create a new test suite that was started at `start`.
    pub fn started_at(start: Timestamp) -> (suite: TestSuite)
        ensures
            suite.is_started_at(start),
    {
        TestSuite {
            results: Vec::new(),
            start_time: start,
            end_time: None,
            overall_score: 0,
            overall_status: TestStatus::Pending,
            system_info: None,
            duration: Duration::from_secs(0),
        }
    }

    /// Calculate the overall score and status, with now as the end of the run.
    pub fn finalize(&mut self)
        ensures
            final(self).end_time matches Some(end) && final(self).is_finalized_from(*old(self), end),
            old(self).results@.len() == 0 ==> final(self).overall_score == 0
                && final(self).overall_status == TestStatus::Failed,
    {
        self.finalize_at(utc_now())
    }

    /// Calculate the overall score and status, with `end` as the end of the run.
    pub fn finalize_at(&mut self, end: Timestamp)
        ensures
            final(self).is_finalized_from(*old(self), end),
            old(self).results@.len() == 0 ==> final(self).overall_score == 0
                && final(self).overall_status == TestStatus::Failed,
    {
        self.end_time = Some(end);
        self.duration = self.start_time.elapsed_until(&end);
        self.overall_score = overall_score(&self.results);
        self.overall_status = overall_status(&self.results);
    }
}

/// Finalizing a suite a second time, with nothing added in between, gives the
/// same overall score and status as the first time, whenever each happens; and
/// with the same end it gives the same duration.
pub proof fn lemma_finalize_idempotent(
    suite: TestSuite,
    once: TestSuite,
    twice: TestSuite,
    first_end: Timestamp,
    second_end: Timestamp,
)
    requires
        once.is_finalized_from(suite, first_end),
        twice.is_finalized_from(once, second_end),
    ensures
        twice.results == once.results,
        twice.start_time == once.start_time,
        twice.overall_score == once.overall_score,
        twice.overall_status == once.overall_status,
        first_end == second_end ==> duration_secs(twice.duration) == duration_secs(once.duration)
            && duration_subsec_nanos(twice.duration) == duration_subsec_nanos(once.duration),
{
}

/// Whether `needle` occurs in `hay` as a run of neighbouring characters.
pub open spec fn contains_text(hay: Seq<char>, needle: Seq<char>) -> bool {
    exists|i: int|
        0 <= i && i + needle.len() <= hay.len() && #[trigger] hay.subrange(i, i + needle.len())
            == needle
}

/// Whether a unit of this name belongs to the group that runs concurrently:
/// its name contains "cpu" or "memory".
pub open spec fn runs_concurrently(name: Seq<char>) -> bool {
    contains_text(name, "cpu"@) || contains_text(name, "memory"@)
}

/// Whether `needle` stands in `hay` at the place `at`.
pub open spec fn occurs_at(hay: Seq<char>, needle: Seq<char>, at: int) -> bool {
    0 <= at && at + needle.len() <= hay.len() && hay.subrange(at, at + needle.len()) == needle
}

/// Whether the text at the place `at` of `hay` is `needle`.
fn matches_at(hay: &str, needle: &str, at: usize, hay_length: usize) -> (found: bool)
    requires
        hay_length == hay@.len(),
        at + needle@.len() <= hay@.len(),
    ensures
        found == occurs_at(hay@, needle@, at as int),
{
    let length = needle.unicode_len();
    let mut j: usize = 0;
    while j < length
        invariant
            j <= length == needle@.len(),
            at + length <= hay@.len() == hay_length,
            forall|k: int| 0 <= k < j ==> hay@[at + k] == needle@[k],
        decreases length - j,
    {
        if hay.get_char(at + j) != needle.get_char(j) {
            assert(hay@.subrange(at as int, at + length)[j as int] != needle@[j as int]);
            return false;
        }
        j = j + 1;
    }
    assert(hay@.subrange(at as int, at + length) =~= needle@);
    true
}

/// Whether `needle` occurs in `hay`.
pub fn text_contains(hay: &str, needle: &str) -> (found: bool)
    ensures
        found == contains_text(hay@, needle@),
{
    let length = hay.unicode_len();
    let span = needle.unicode_len();
    if span > length {
        return false;
    }
    let last = length - span;
    let mut at: usize = 0;
    loop
        invariant_except_break
            at <= last,
            forall|k: int| 0 <= k < at ==> !occurs_at(hay@, needle@, k),
        invariant
            last + span == length == hay@.len(),
            span == needle@.len(),
        ensures
            forall|k: int| 0 <= k <= last ==> !occurs_at(hay@, needle@, k),
        decreases last - at,
    {
        if matches_at(hay, needle, at, length) {
            return true;
        }
        if at == last {
            break ;
        }
        at = at + 1;
    }
    assert forall|k: int| !(0 <= k && k + needle@.len() <= hay@.len() && #[trigger] hay@.subrange(
        k,
        k + needle@.len(),
    ) == needle@) by {
        if 0 <= k && k + needle@.len() <= hay@.len() {
            assert(!occurs_at(hay@, needle@, k));
        }
    }
    false
}

/// Whether a unit of this name belongs to the group that runs concurrently.
pub fn in_concurrent_group(name: &str) -> (b: bool)
    ensures
        b == runs_concurrently(name@),
{
    text_contains(name, "cpu") || text_contains(name, "memory")
}

/// Something that was registered under a name.
pub struct Registered<T> {
    pub name: &'static str,
    pub test: T,
}

impl<T> Registered<T> {
    /// Registers `test` under `name`.
    pub fn new(name: &'static str, test: T) -> (entry: Self)
        ensures
            entry.name == name,
            entry.test == test,
    {
        Registered { name, test }
    }
}

/// A workload unit as the scheduler holds it: the unit and the name under
/// which it was registered.
pub type RegisteredUnit = Registered<Box<dyn BurnInTest>>;

/// Picks the units of the concurrent group.
pub open spec fn concurrent_units() -> spec_fn(RegisteredUnit) -> bool {
    |unit: RegisteredUnit| runs_concurrently(unit.name@)
}

/// Picks the units that run one after the other.
pub open spec fn sequential_units() -> spec_fn(RegisteredUnit) -> bool {
    |unit: RegisteredUnit| !runs_concurrently(unit.name@)
}

/// Takes the first item out of a vector.
fn take_first<T>(items: &mut Vec<T>) -> (first: T)
    requires
        old(items)@.len() > 0,
    ensures
        first == old(items)@[0],
        final(items)@ == old(items)@.skip(1),
{
    let first = items.remove(0);
    assert(items@ =~= old(items)@.skip(1));
    first
}

/// Puts an item behind the last of a vector.
fn put_last<T>(items: &mut Vec<T>, item: T)
    ensures
        final(items)@ == old(items)@.push(item),
        final(items)@.len() == old(items)@.len() + 1,
        final(items)@[old(items)@.len() as int] == item,
        forall|i: int| 0 <= i < old(items)@.len() ==> final(items)@[i] == old(items)@[i],
{
    items.push(item);
}

/// Splits the units into the concurrent group and the rest, each in
/// registration order.
pub fn partition_units(units: Vec<RegisteredUnit>) -> (groups: (
    Vec<RegisteredUnit>,
    Vec<RegisteredUnit>,
))
    ensures
        groups.0@ == units@.filter(concurrent_units()),
        groups.1@ == units@.filter(sequential_units()),
{
    let ghost all = units@;
    let total: usize = units.len();
    let mut rest = units;
    let mut concurrent: Vec<RegisteredUnit> = Vec::new();
    let mut others: Vec<RegisteredUnit> = Vec::new();
    let mut taken: usize = 0;
    proof {
        reveal(Seq::filter);
        assert(all.take(0) =~= Seq::<RegisteredUnit>::empty());
        assert(all.skip(0) =~= all);
    }
    while rest.len() > 0
        invariant
            taken <= all.len() == total,
            rest@ == all.skip(taken as int),
            concurrent@ == all.take(taken as int).filter(concurrent_units()),
            others@ == all.take(taken as int).filter(sequential_units()),
        decreases rest.len(),
    {
        let unit = take_first(&mut rest);
        proof {
            reveal(Seq::filter);
            assert(unit == all[taken as int]);
            assert(all.take(taken as int + 1).drop_last() =~= all.take(taken as int));
            assert(all.take(taken as int + 1).last() == unit);
            assert(all.skip(taken as int).skip(1) =~= all.skip(taken as int + 1));
        }
        if in_concurrent_group(unit.name) {
            concurrent.push(unit);
        } else {
            others.push(unit);
        }
        taken = taken + 1;
    }
    assert(all.take(taken as int) =~= all);
    (concurrent, others)
}

/// Every unit goes to exactly one of the two groups: to the concurrent group
/// when its name contains "cpu" or "memory", to the sequential one
/// otherwise. Neither group holds anything else, and together they are as
/// many as the units.
pub proof fn lemma_grouping(units: Seq<RegisteredUnit>)
    ensures
        forall|i: int|
            0 <= i < units.len() && runs_concurrently((#[trigger] units[i]).name@)
                ==> units.filter(concurrent_units()).contains(units[i]),
        forall|i: int|
            0 <= i < units.len() && !runs_concurrently((#[trigger] units[i]).name@)
                ==> units.filter(sequential_units()).contains(units[i]),
        forall|unit: RegisteredUnit| #[trigger]
            units.filter(concurrent_units()).contains(unit) ==> units.contains(unit)
                && runs_concurrently(unit.name@),
        forall|unit: RegisteredUnit| #[trigger]
            units.filter(sequential_units()).contains(unit) ==> units.contains(unit)
                && !runs_concurrently(unit.name@),
        units.filter(concurrent_units()).len() + units.filter(sequential_units()).len()
            == units.len(),
    decreases units.len(),
{
    reveal(Seq::filter);
    let concurrent = units.filter(concurrent_units());
    let others = units.filter(sequential_units());
    if units.len() > 0 {
        let rest = units.drop_last();
        let last = units.last();
        lemma_grouping(rest);
        assert forall|i: int|
            0 <= i < units.len() && runs_concurrently((#[trigger] units[i]).name@) implies concurrent.contains(
            units[i],
        ) by {
            if i < rest.len() {
                assert(rest[i] == units[i]);
                let j = choose|j: int|
                    0 <= j < rest.filter(concurrent_units()).len() && rest.filter(concurrent_units())[j]
                        == units[i];
                assert(concurrent[j] == units[i]);
            } else {
                assert(concurrent[concurrent.len() - 1] == units[i]);
            }
        }
        assert forall|i: int|
            0 <= i < units.len() && !runs_concurrently((#[trigger] units[i]).name@) implies others.contains(
            units[i],
        ) by {
            if i < rest.len() {
                assert(rest[i] == units[i]);
                let j = choose|j: int|
                    0 <= j < rest.filter(sequential_units()).len() && rest.filter(sequential_units())[j]
                        == units[i];
                assert(others[j] == units[i]);
            } else {
                assert(others[others.len() - 1] == units[i]);
            }
        }
        assert forall|unit: RegisteredUnit| #[trigger] concurrent.contains(unit) implies units.contains(
            unit,
        ) && runs_concurrently(unit.name@) by {
            let j = choose|j: int| 0 <= j < concurrent.len() && concurrent[j] == unit;
            if j < rest.filter(concurrent_units()).len() {
                assert(rest.filter(concurrent_units())[j] == unit);
                assert(rest.filter(concurrent_units()).contains(unit));
                let k = choose|k: int| 0 <= k < rest.len() && rest[k] == unit;
                assert(units[k] == unit);
            } else {
                assert(unit == last);
                assert(units[units.len() - 1] == unit);
            }
        }
        assert forall|unit: RegisteredUnit| #[trigger] others.contains(unit) implies units.contains(
            unit,
        ) && !runs_concurrently(unit.name@) by {
            let j = choose|j: int| 0 <= j < others.len() && others[j] == unit;
            if j < rest.filter(sequential_units()).len() {
                assert(rest.filter(sequential_units())[j] == unit);
                assert(rest.filter(sequential_units()).contains(unit));
                let k = choose|k: int| 0 <= k < rest.len() && rest[k] == unit;
                assert(units[k] == unit);
            } else {
                assert(unit == last);
                assert(units[units.len() - 1] == unit);
            }
        }
    }
}


/// Picks what a launched unit left behind; a unit that was not launched left
/// nothing.
pub open spec fn launched() -> spec_fn(Option<TestResult>) -> Option<TestResult> {
    |outcome: Option<TestResult>| outcome
}

/// Keeps the results of the units that were launched, in their order.
pub fn collect_launched(outcomes: Vec<Option<TestResult>>) -> (results: Vec<TestResult>)
    ensures
        results@ == outcomes@.filter_map(launched()),
        results@.len() <= outcomes@.len(),
{
    let ghost all = outcomes@;
    let total: usize = outcomes.len();
    let mut rest = outcomes;
    let mut results: Vec<TestResult> = Vec::new();
    let mut taken: usize = 0;
    proof {
        assert(all.take(0) =~= Seq::<Option<TestResult>>::empty());
        assert(all.skip(0) =~= all);
    }
    while rest.len() > 0
        invariant
            taken <= all.len() == total,
            rest@ == all.skip(taken as int),
            results@ == all.take(taken as int).filter_map(launched()),
            results@.len() <= taken,
        decreases rest.len(),
    {
        let outcome = take_first(&mut rest);
        proof {
            all.lemma_filter_map_take_succ(launched(), taken as int);
            assert(all.skip(taken as int).skip(1) =~= all.skip(taken as int + 1));
        }
        match outcome {
            Some(result) => {
                results.push(result);
            },
            None => {},
        }
        taken = taken + 1;
    }
    assert(all.take(taken as int) =~= all);
    results
}

/// The warning that is reported when a unit's cleanup failed.
pub open spec fn cleanup_warning_text(name: Seq<char>, error_text: Seq<char>) -> Seq<char> {
    "Failed to clean up after test "@ + name + ": "@ + error_text
}

/// The warning that is reported when a unit's cleanup failed.
pub fn cleanup_warning(name: &str, error_text: &str) -> (warning: String)
    ensures
        warning@ == cleanup_warning_text(name@, error_text@),
{
    String::from_str("Failed to clean up after test ").concat(name).concat(": ").concat(error_text)
}

/// What is reported after a unit's cleanup: nothing when it succeeded, else
/// the warning with the unit's name and the error's message.
pub fn cleanup_notice(name: &str, cleanup: Result<()>) -> (notice: Option<String>)
    ensures
        cleanup is Ok ==> notice is None,
        cleanup matches Err(e) ==> (notice matches Some(w) && w@ == cleanup_warning_text(
            name@,
            e.spec_message(),
        )),
{
    match cleanup {
        Ok(_) => None,
        Err(e) => {
            let text = e.message();
            Some(cleanup_warning(name, text.as_str()))
        },
    }
}

/// Runs one unit, given what the interrupt flag held just before. With the
/// flag raised the unit is not touched at all and nothing is recorded. Else
/// the unit is announced and executed, what is recorded for it is reported,
/// and it is cleaned up whatever `execute` returned; a failed cleanup is
/// reported as a warning.
pub fn run_unit_after(
    raised: bool,
    unit: &RegisteredUnit,
    config: &TestConfig,
    reporter: &Box<dyn Reporter>,
) -> (recorded: Option<TestResult>)
    ensures
        recorded is None <==> raised,
{
    if raised {
        return None;
    }
    reporter.report_test_start(unit.name);
    let started = stopwatch_start();
    let outcome = unit.test.execute(config);
    let elapsed = stopwatch_elapsed(&started);
    let result = TestResult::from_outcome(unit.name, outcome, elapsed);
    reporter.report_test_result(&result);
    match cleanup_notice(unit.name, unit.test.cleanup()) {
        Some(warning) => {
            reporter.report_warning(warning.as_str());
        },
        None => {},
    }
    Some(result)
}

/// Runs one unit unless the run has been interrupted: reads the interrupt
/// flag and goes on as [`run_unit_after`] says for that reading.
pub fn run_unit(
    unit: &RegisteredUnit,
    config: &TestConfig,
    reporter: &Box<dyn Reporter>,
    interrupted: &InterruptFlag,
) -> Option<TestResult> {
    run_unit_after(interrupted.is_raised(), unit, config, reporter)
}

/// Takes in what one unit's run left behind: a result is put behind the
/// others and the pass goes on; where the unit was not launched nothing
/// changes and the pass is over.
pub fn record_outcome(results: &mut Vec<TestResult>, outcome: Option<TestResult>) -> (go_on: bool)
    ensures
        outcome matches Some(r) ==> final(results)@ == old(results)@.push(r) && go_on,
        outcome is None ==> final(results)@ == old(results)@ && !go_on,
{
    match outcome {
        Some(result) => {
            results.push(result);
            true
        },
        None => false,
    }
}

/// Runs the units of the concurrent group at once, each through [`run_unit`],
/// with rayon's `par_iter`, `map` and `collect`: one outcome for each unit, in
/// the units' order, once every unit has finished.
#[verifier::external_body]
fn run_group(
    units: &Vec<RegisteredUnit>,
    config: &TestConfig,
    reporter: &Box<dyn Reporter>,
    interrupted: &InterruptFlag,
) -> (outcomes: Vec<Option<TestResult>>)
    ensures
        outcomes@.len() == units@.len(),
{
    units.par_iter().map(|unit| run_unit(unit, config, reporter, interrupted)).collect()
}

/// Runs the units one after the other, in their order, and appends each
/// result to the suite. Stops before the first unit that finds the run
/// interrupted.
pub fn run_in_order(
    units: &Vec<RegisteredUnit>,
    config: &TestConfig,
    reporter: &Box<dyn Reporter>,
    interrupted: &InterruptFlag,
    results: &mut Vec<TestResult>,
)
    ensures
        old(results)@.len() <= final(results)@.len() <= old(results)@.len() + units@.len(),
        final(results)@.take(old(results)@.len() as int) == old(results)@,
{
    let mut i: usize = 0;
    assert(results@.take(results@.len() as int) =~= results@);
    while i < units.len()
        invariant_except_break
            i <= units.len(),
            results@.len() == old(results)@.len() + i,
        invariant
            results@.take(old(results)@.len() as int) == old(results)@,
            old(results)@.len() <= results@.len(),
        ensures
            results@.len() <= old(results)@.len() + units@.len(),
        decreases units.len() - i,
    {
        let ghost before = results@;
        let outcome = run_unit(&units[i], config, reporter, interrupted);
        if !record_outcome(results, outcome) {
            break ;
        }
        assert(results@.take(old(results)@.len() as int) =~= before.take(
            old(results)@.len() as int,
        ));
        i = i + 1;
    }
}

/// The name of a status, as it is written in the closing message of a run.
pub open spec fn status_name_text(status: TestStatus) -> Seq<char> {
    match status {
        TestStatus::Pending => "Pending"@,
        TestStatus::Running => "Running"@,
        TestStatus::Completed => "Completed"@,
        TestStatus::Failed => "Failed"@,
        TestStatus::Skipped => "Skipped"@,
        TestStatus::Partial => "Partial"@,
    }
}

/// The name of a status, as it is written in the closing message of a run.
pub fn status_name(status: TestStatus) -> (name: &'static str)
    ensures
        name@ == status_name_text(status),
{
    match status {
        TestStatus::Pending => "Pending",
        TestStatus::Running => "Running",
        TestStatus::Completed => "Completed",
        TestStatus::Failed => "Failed",
        TestStatus::Skipped => "Skipped",
        TestStatus::Partial => "Partial",
    }
}

/// The closing message of a run that produced a suite of the given status.
pub open spec fn completion_text(status: TestStatus) -> Seq<char> {
    "All tests completed with status: "@ + status_name_text(status)
}

/// The closing message of a run that produced a suite of the given status.
pub fn completion_message(status: TestStatus) -> (message: String)
    ensures
        message@ == completion_text(status),
{
    String::from_str("All tests completed with status: ").concat(status_name(status))
}

/// The closing warning of a run that ended in an error with the given text.
pub open spec fn failure_notice_text(error_text: Seq<char>) -> Seq<char> {
    "Tests failed with error: "@ + error_text
}

/// The closing warning of a run that ended in an error with the given text.
pub fn failure_notice(error_text: &str) -> (notice: String)
    ensures
        notice@ == failure_notice_text(error_text@),
{
    String::from_str("Tests failed with error: ").concat(error_text)
}

/// The error of a run that could not install its interrupt handler.
pub open spec fn handler_error_text(cause: Seq<char>) -> Seq<char> {
    "Failed to set Ctrl-C handler: "@ + cause
}

/// Test execution engine
pub struct BurnInRunner {
    units: Vec<RegisteredUnit>,
    config: TestConfig,
    reporter: Box<dyn Reporter>,
    interrupted: InterruptFlag,
}

impl BurnInRunner {
    /// The units that the runner holds, in registration order.
    pub closed spec fn spec_units(self) -> Seq<RegisteredUnit> {
        self.units@
    }

    /// The configuration of the run.
    pub closed spec fn spec_config(self) -> TestConfig {
        self.config
    }

    /// Whether the run takes the grouped-parallel path: when both the compute
    /// and the memory domain are enabled.
    pub open spec fn spec_runs_parallel(self) -> bool {
        self.spec_config().cpu_enabled && self.spec_config().memory_enabled
    }

    /// Whether `suite` is a finalized suite of a run over `units` units: at
    /// most one result for each unit, no system recorded, the end recorded
    /// with the time since the start as the duration, and the overall score
    /// and status those of its results.
    pub open spec fn is_suite_of(suite: TestSuite, units: nat) -> bool {
        &&& suite.results@.len() <= units
        &&& suite.system_info is None
        &&& suite.end_time matches Some(end)
        &&& duration_secs(suite.duration) == elapsed_secs(suite.start_time, end)
        &&& duration_subsec_nanos(suite.duration) == elapsed_subsec_nanos(suite.start_time, end)
        &&& suite.overall_score == suite_score(suite.results@)
        &&& suite.overall_status == suite_status(suite.results@)
    }

    /// Create a new test runner. Each test is registered under the name it
    /// gives at this moment.
    pub fn new(
        tests: Vec<Box<dyn BurnInTest>>,
        config: TestConfig,
        reporter: Box<dyn Reporter>,
    ) -> (runner: Self)
        ensures
            runner.spec_config() == config,
            runner.spec_units().len() == tests@.len(),
            forall|i: int|
                0 <= i < tests@.len() ==> (#[trigger] runner.spec_units()[i]).test == tests@[i],
    {
        let ghost all = tests@;
        let total: usize = tests.len();
        let mut rest = tests;
        let mut units: Vec<RegisteredUnit> = Vec::new();
        assert(all.skip(0) =~= all);
        while rest.len() > 0
            invariant
                units@.len() <= all.len() == total,
                rest@ == all.skip(units@.len() as int),
                forall|i: int| 0 <= i < units@.len() ==> (#[trigger] units@[i]).test == all[i],
            decreases rest.len(),
        {
            let ghost done = units@.len() as int;
            let test = take_first(&mut rest);
            assert(all.skip(done).skip(1) =~= all.skip(done + 1));
            let name = test.name();
            let ghost before = units@;
            assert(test == all[done]);
            let unit = Registered::new(name, test);
            put_last(&mut units, unit);
            assert(units@[done].test == all[done]);
            assert forall|i: int| 0 <= i < units@.len() implies (#[trigger] units@[i]).test == all[i] by {
                if i < done {
                    assert(units@[i] == before[i]);
                }
            }
        }
        BurnInRunner { units, config, reporter, interrupted: InterruptFlag::new() }
    }

    /// A handle to the very flag that the run reads, for whoever is to raise it.
    pub fn interrupt_flag(&self) -> (flag: InterruptFlag)
        ensures
            flag == self.spec_interrupt_flag(),
    {
        self.interrupted.handle()
    }

    /// Settles the installation of the interrupt handler: given what the
    /// installation returned, the error that ends the run, if it failed.
    pub fn setup_interrupt_handler(&self, installation: std::result::Result<(), String>) -> (r: Result<()>)
        ensures
            installation is Ok ==> r is Ok,
            installation matches Err(cause) ==> (r matches Err(BurnInError::UnexpectedError(text))
                && text@ == handler_error_text(cause@)),
    {
        match installation {
            Ok(_) => Ok(()),
            Err(cause) => Err(Self::handler_error(cause.as_str())),
        }
    }

    /// Check if execution was interrupted: what the run's interrupt flag holds
    /// at this moment.
    pub fn is_interrupted(&self) -> bool {
        self.interrupted.is_raised()
    }

    /// The interrupt flag that the run reads at every unit boundary.
    pub closed spec fn spec_interrupt_flag(self) -> InterruptFlag {
        self.interrupted
    }

    /// The error of a run that could not install its interrupt handler.
    pub fn handler_error(cause: &str) -> (e: BurnInError)
        ensures
            e matches BurnInError::UnexpectedError(text) && text@ == handler_error_text(cause@),
    {
        BurnInError::UnexpectedError(String::from_str("Failed to set Ctrl-C handler: ").concat(cause))
    }

    /// Execute tests sequentially
    pub fn execute_sequential(&mut self) -> (r: Result<TestSuite>)
        ensures
            r matches Ok(suite) && Self::is_suite_of(suite, old(self).spec_units().len()),
            final(self).spec_units() == old(self).spec_units(),
            final(self).spec_config() == old(self).spec_config(),
            final(self).spec_interrupt_flag() == old(self).spec_interrupt_flag(),
    {
        let mut suite = TestSuite::new();
        self.reporter.report_start(&self.config);
        run_in_order(&self.units, &self.config, &self.reporter, &self.interrupted, &mut suite.results);
        suite.finalize();
        self.reporter.report_suite_result(&suite);
        Ok(suite)
    }

    /// Execute compatible tests in parallel: the units of the concurrent group
    /// at once, then the others one after the other. The runner gives its
    /// units up to the run.
    pub fn execute_parallel(&mut self) -> (r: Result<TestSuite>)
        ensures
            r matches Ok(suite) && Self::is_suite_of(suite, old(self).spec_units().len()),
            final(self).spec_units().len() == 0,
            final(self).spec_config() == old(self).spec_config(),
            final(self).spec_interrupt_flag() == old(self).spec_interrupt_flag(),
    {
        let mut suite = TestSuite::new();
        self.reporter.report_start(&self.config);
        let mut units: Vec<RegisteredUnit> = Vec::new();
        std::mem::swap(&mut units, &mut self.units);
        proof {
            lemma_grouping(units@);
        }
        let (concurrent, others) = partition_units(units);
        if concurrent.len() > 0 {
            self.reporter.report_info("Running CPU and memory tests in parallel...");
            let outcomes = run_group(&concurrent, &self.config, &self.reporter, &self.interrupted);
            let mut finished = collect_launched(outcomes);
            suite.results.append(&mut finished);
        }
        run_in_order(&others, &self.config, &self.reporter, &self.interrupted, &mut suite.results);
        suite.finalize();
        self.reporter.report_suite_result(&suite);
        Ok(suite)
    }

    /// Execute tests with recovery capabilities, once the interrupt handler
    /// has been installed: in parallel when both the compute and the memory
    /// domain are enabled, else sequentially. Where the installation failed,
    /// no unit runs and its error is returned.
    pub fn execute_with_recovery(&mut self, installation: std::result::Result<(), String>) -> (r: Result<
        TestSuite,
    >)
        ensures
            installation matches Err(cause) ==> (r matches Err(BurnInError::UnexpectedError(text))
                && text@ == handler_error_text(cause@)) && final(self).spec_units() == old(
                self,
            ).spec_units(),
            installation is Ok ==> (r matches Ok(suite) && Self::is_suite_of(
                suite,
                old(self).spec_units().len(),
            )),
            installation is Ok && old(self).spec_runs_parallel() ==> final(self).spec_units().len()
                == 0,
            installation is Ok && !old(self).spec_runs_parallel() ==> final(self).spec_units()
                == old(self).spec_units(),
            final(self).spec_config() == old(self).spec_config(),
            final(self).spec_interrupt_flag() == old(self).spec_interrupt_flag(),
    {
        match self.setup_interrupt_handler(installation) {
            Ok(_) => {},
            Err(e) => {
                return Err(e);
            },
        }
        if self.config.cpu_enabled && self.config.memory_enabled {
            self.execute_parallel()
        } else {
            self.execute_sequential()
        }
    }

    /// Execute all tests based on configuration, as `execute_with_recovery`
    /// does, and report the start and the outcome of the run to the reporter.
    pub fn execute_all(&mut self, installation: std::result::Result<(), String>) -> (r: Result<
        TestSuite,
    >)
        ensures
            installation matches Err(cause) ==> (r matches Err(BurnInError::UnexpectedError(text))
                && text@ == handler_error_text(cause@)) && final(self).spec_units() == old(
                self,
            ).spec_units(),
            installation is Ok ==> (r matches Ok(suite) && Self::is_suite_of(
                suite,
                old(self).spec_units().len(),
            )),
            installation is Ok && old(self).spec_runs_parallel() ==> final(self).spec_units().len()
                == 0,
            installation is Ok && !old(self).spec_runs_parallel() ==> final(self).spec_units()
                == old(self).spec_units(),
            final(self).spec_config() == old(self).spec_config(),
            final(self).spec_interrupt_flag() == old(self).spec_interrupt_flag(),
    {
        match self.setup_interrupt_handler(installation) {
            Ok(_) => {},
            Err(e) => {
                return Err(e);
            },
        }
        self.reporter.report_info("Starting burn-in tests");
        let result = if self.config.cpu_enabled && self.config.memory_enabled {
            self.execute_parallel()
        } else {
            self.execute_sequential()
        };
        match &result {
            Ok(suite) => {
                let message = completion_message(suite.overall_status);
                self.reporter.report_info(message.as_str());
            },
            Err(e) => {
                let text = e.message();
                let notice = failure_notice(text.as_str());
                self.reporter.report_warning(notice.as_str());
            },
        }
        result
    }
}



} // verus!
