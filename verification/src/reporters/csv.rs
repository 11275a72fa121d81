//! The CSV report: what its records hold. Writing them out is left to the
//! caller.

use vstd::prelude::*;
use vstd::string::*;
use crate::engine::metrics::metric_entries;
use crate::engine::metrics::metric_pairs;
use crate::engine::metrics::pairs_view;
use crate::engine::runner::TestSuite;
use crate::engine::test::issue_texts;
use crate::engine::test::IssueSeverity;
use crate::engine::test::IssueText;
use crate::engine::test::TestIssue;
use crate::engine::test::TestResult;
use crate::engine::test::TestStatus;
use crate::engine::text::decimal_digits;
use crate::engine::text::decimal_text;
use crate::engine::text::text_of;
use crate::engine::time::utc_clock_text;
use crate::engine::time::utc_date_text;

verus! {

/// The word that stands for a status in a report.
pub open spec fn status_word(status: TestStatus) -> Seq<char> {
    match status {
        TestStatus::Completed => "PASS"@,
        TestStatus::Failed => "FAIL"@,
        TestStatus::Partial => "PARTIAL"@,
        TestStatus::Skipped => "SKIPPED"@,
        TestStatus::Pending => "PENDING"@,
        TestStatus::Running => "RUNNING"@,
    }
}

/// The word that stands for a severity in a report.
pub open spec fn severity_word(severity: IssueSeverity) -> Seq<char> {
    match severity {
        IssueSeverity::Critical => "CRITICAL"@,
        IssueSeverity::High => "HIGH"@,
        IssueSeverity::Medium => "MEDIUM"@,
        IssueSeverity::Low => "LOW"@,
    }
}

/// CSV reporter for spreadsheet-compatible output
pub struct CsvReporter {
    pub output_file: Option<String>,
}

impl CsvReporter {
    /// Create a new CSV reporter
    pub fn new(output_file: Option<String>) -> (reporter: Self)
        ensures
            reporter.output_file == output_file,
    {
        Self { output_file }
    }

    /// Convert test status to string
    pub fn status_to_string(status: TestStatus) -> (word: &'static str)
        ensures
            word@ == status_word(status),
    {
        match status {
            TestStatus::Completed => "PASS",
            TestStatus::Failed => "FAIL",
            TestStatus::Partial => "PARTIAL",
            TestStatus::Skipped => "SKIPPED",
            TestStatus::Pending => "PENDING",
            TestStatus::Running => "RUNNING",
        }
    }

    /// Convert severity to string
    pub fn severity_to_string(severity: IssueSeverity) -> (word: &'static str)
        ensures
            word@ == severity_word(severity),
    {
        match severity {
            IssueSeverity::Critical => "CRITICAL",
            IssueSeverity::High => "HIGH",
            IssueSeverity::Medium => "MEDIUM",
            IssueSeverity::Low => "LOW",
        }
    }
}

/// A record of the report: five fields.
pub open spec fn record_of(
    a: Seq<char>,
    b: Seq<char>,
    c: Seq<char>,
    d: Seq<char>,
    e: Seq<char>,
) -> Seq<Seq<char>> {
    seq![a, b, c, d, e]
}

/// A record that holds one label and nothing else.
pub open spec fn label_record(label: Seq<char>) -> Seq<Seq<char>> {
    record_of(label, Seq::empty(), Seq::empty(), Seq::empty(), Seq::empty())
}

/// A record that holds a label and its value.
pub open spec fn pair_record(label: Seq<char>, value: Seq<char>) -> Seq<Seq<char>> {
    record_of(label, value, Seq::empty(), Seq::empty(), Seq::empty())
}

/// An issue as it stands in the issues field: its severity in brackets, then
/// its message.
pub open spec fn issue_tag(issue: IssueText) -> Seq<char> {
    "["@ + severity_word(issue.severity) + "] "@ + issue.message
}

/// The issues field of a result: the issues' tags, joined by "; ".
pub open spec fn issues_joined(issues: Seq<IssueText>) -> Seq<char>
    decreases issues.len(),
{
    if issues.len() == 0 {
        Seq::empty()
    } else if issues.len() == 1 {
        issue_tag(issues[0])
    } else {
        issues_joined(issues.drop_last()) + "; "@ + issue_tag(issues.last())
    }
}

/// The record of one result: name, status, score, whole seconds, issues.
pub open spec fn result_record(result: TestResult) -> Seq<Seq<char>> {
    record_of(
        result.name@,
        status_word(result.status),
        decimal_digits(result.score as nat),
        decimal_digits(result.spec_secs()),
        issues_joined(issue_texts(result.issues@)),
    )
}

/// The records of the results, one for each in their order.
pub open spec fn result_records(results: Seq<TestResult>) -> Seq<Seq<Seq<char>>> {
    Seq::new(results.len(), |i: int| result_record(results[i]))
}

/// The records of one result's metrics: the result's name, the metric and its
/// value.
pub open spec fn entry_records(name: Seq<char>, entries: Seq<(Seq<char>, Seq<char>)>) -> Seq<
    Seq<Seq<char>>,
> {
    Seq::new(
        entries.len(),
        |i: int| record_of(name, entries[i].0, entries[i].1, Seq::empty(), Seq::empty()),
    )
}

/// The records of all results' metrics, in the order of the results.
pub open spec fn metric_records(results: Seq<TestResult>) -> Seq<Seq<Seq<char>>>
    decreases results.len(),
{
    if results.len() == 0 {
        Seq::empty()
    } else {
        metric_records(results.drop_last()) + entry_records(
            results.last().name@,
            metric_entries(results.last().metrics),
        )
    }
}

/// A text, or the empty text where there is none.
pub open spec fn text_or_empty(text: Option<Seq<char>>) -> Seq<char> {
    match text {
        Some(text) => text,
        None => Seq::empty(),
    }
}

/// The records between the results and the metrics: the summary of the run
/// and the headings of the metrics section.
pub open spec fn summary_records(suite: TestSuite, hostname: Seq<char>) -> Seq<Seq<Seq<char>>> {
    seq![
        label_record(Seq::empty()),
        label_record("Summary"@),
        pair_record("System"@, hostname),
        pair_record(
            "Test Date"@,
            text_or_empty(
                utc_date_text(suite.start_time.spec_secs(), suite.start_time.spec_nanos()),
            ),
        ),
        pair_record(
            "Test Time"@,
            text_or_empty(
                utc_clock_text(suite.start_time.spec_secs(), suite.start_time.spec_nanos()),
            ),
        ),
        pair_record("Overall Result"@, status_word(suite.overall_status)),
        pair_record("Overall Score"@, decimal_digits(suite.overall_score as nat)),
        pair_record("Duration (s)"@, decimal_digits(suite.spec_run_secs() as nat)),
        label_record(Seq::empty()),
        label_record("Metrics"@),
        record_of("Test Name"@, "Metric"@, "Value"@, Seq::empty(), Seq::empty()),
    ]
}

/// The heading of the results section.
pub open spec fn results_heading() -> Seq<Seq<char>> {
    record_of("Test Name"@, "Status"@, "Score"@, "Duration (s)"@, "Issues"@)
}

/// All records of the report of a suite, in the order in which they are
/// written: the heading, the results, the summary, the metrics.
pub open spec fn suite_records(suite: TestSuite, hostname: Seq<char>) -> Seq<Seq<Seq<char>>> {
    seq![results_heading()] + result_records(suite.results@) + summary_records(suite, hostname)
        + metric_records(suite.results@)
}

/// Builds a record of five fields.
fn record(a: String, b: String, c: String, d: String, e: String) -> (fields: Vec<String>)
    ensures
        fields.deep_view() == record_of(a@, b@, c@, d@, e@),
{
    let mut fields: Vec<String> = Vec::new();
    fields.push(a);
    fields.push(b);
    fields.push(c);
    fields.push(d);
    fields.push(e);
    assert(fields.deep_view() =~= record_of(a@, b@, c@, d@, e@));
    fields
}

/// Builds a record that holds one label and nothing else.
fn label(text: &str) -> (fields: Vec<String>)
    ensures
        fields.deep_view() == label_record(text@),
{
    record(String::from_str(text), String::new(), String::new(), String::new(), String::new())
}

/// Builds a record that holds a label and its value.
fn pair(text: &str, value: String) -> (fields: Vec<String>)
    ensures
        fields.deep_view() == pair_record(text@, value@),
{
    record(String::from_str(text), value, String::new(), String::new(), String::new())
}

/// Puts a record behind the others.
fn put(rows: &mut Vec<Vec<String>>, fields: Vec<String>)
    ensures
        final(rows).deep_view() == old(rows).deep_view().push(fields.deep_view()),
{
    rows.push(fields);
    assert(rows.deep_view() =~= old(rows).deep_view().push(fields.deep_view()));
}

/// A text, or the empty text where there is none.
fn or_empty(text: Option<String>) -> (out: String)
    ensures
        out@ == text_or_empty(text_of(text)),
{
    match text {
        Some(text) => text,
        None => String::new(),
    }
}

impl CsvReporter {
    /// The issues field of a result.
    pub fn join_issues(issues: &Vec<TestIssue>) -> (joined: String)
        ensures
            joined@ == issues_joined(issue_texts(issues@)),
    {
        let ghost all = issue_texts(issues@);
        let mut joined = String::new();
        let mut i: usize = 0;
        assert(all.take(0) =~= Seq::<IssueText>::empty());
        while i < issues.len()
            invariant
                i <= issues.len(),
                all == issue_texts(issues@),
                joined@ == issues_joined(all.take(i as int)),
            decreases issues.len() - i,
        {
            proof {
                assert(all.take(i as int + 1).drop_last() =~= all.take(i as int));
                assert(all.take(i as int + 1).last() == issues@[i as int].text());
                if i == 0 {
                    assert(all.take(1)[0] == issues@[0].text());
                }
            }
            if i > 0 {
                joined.append("; ");
            }
            joined.append("[");
            joined.append(CsvReporter::severity_to_string(issues[i].severity));
            joined.append("] ");
            joined.append(issues[i].message.as_str());
            assert(joined@ =~= issues_joined(all.take(i as int + 1)));
            i = i + 1;
        }
        assert(all.take(i as int) =~= all);
        joined
    }

    /// The record of one result.
    pub fn result_fields(result: &TestResult) -> (fields: Vec<String>)
        ensures
            fields.deep_view() == result_record(*result),
    {
        record(
            result.name.clone(),
            String::from_str(CsvReporter::status_to_string(result.status)),
            decimal_text(result.score as u64),
            decimal_text(result.duration.as_secs()),
            CsvReporter::join_issues(&result.issues),
        )
    }

    /// All records of the report of a suite, for a machine of the given
    /// name, in the order in which they are written.
    pub fn report_records(suite: &TestSuite, hostname: &str) -> (rows: Vec<Vec<String>>)
        ensures
            rows.deep_view() == suite_records(*suite, hostname@),
    {
        let mut rows: Vec<Vec<String>> = Vec::new();
        assert(rows.deep_view() =~= Seq::<Seq<Seq<char>>>::empty());
        put(
            &mut rows,
            record(
                String::from_str("Test Name"),
                String::from_str("Status"),
                String::from_str("Score"),
                String::from_str("Duration (s)"),
                String::from_str("Issues"),
            ),
        );
        let mut i: usize = 0;
        assert(rows.deep_view() =~= seq![results_heading()] + result_records(suite.results@).take(0));
        while i < suite.results.len()
            invariant
                i <= suite.results.len(),
                rows.deep_view() == seq![results_heading()] + result_records(suite.results@).take(
                    i as int,
                ),
            decreases suite.results.len() - i,
        {
            put(&mut rows, CsvReporter::result_fields(&suite.results[i]));
            assert(rows.deep_view() =~= seq![results_heading()] + result_records(
                suite.results@,
            ).take(i as int + 1));
            i = i + 1;
        }
        assert(result_records(suite.results@).take(i as int) =~= result_records(suite.results@));
        let ghost head = rows.deep_view();
        let run: u64 = suite.run_secs();
        put(&mut rows, label(""));
        put(&mut rows, label("Summary"));
        put(&mut rows, pair("System", String::from_str(hostname)));
        put(&mut rows, pair("Test Date", or_empty(suite.start_time.date_text())));
        put(&mut rows, pair("Test Time", or_empty(suite.start_time.clock_text())));
        put(
            &mut rows,
            pair(
                "Overall Result",
                String::from_str(CsvReporter::status_to_string(suite.overall_status)),
            ),
        );
        put(&mut rows, pair("Overall Score", decimal_text(suite.overall_score as u64)));
        put(&mut rows, pair("Duration (s)", decimal_text(run)));
        put(&mut rows, label(""));
        put(&mut rows, label("Metrics"));
        put(
            &mut rows,
            record(
                String::from_str("Test Name"),
                String::from_str("Metric"),
                String::from_str("Value"),
                String::new(),
                String::new(),
            ),
        );
        proof {
            reveal_strlit("");
            assert(""@ =~= Seq::<char>::empty());
            assert(rows.deep_view() =~= head + summary_records(*suite, hostname@));
        }
        let ghost upper = rows.deep_view();
        let mut k: usize = 0;
        assert(suite.results@.take(0) =~= Seq::<TestResult>::empty());
        assert(rows.deep_view() =~= upper + metric_records(suite.results@.take(0)));
        while k < suite.results.len()
            invariant
                k <= suite.results.len(),
                rows.deep_view() == upper + metric_records(suite.results@.take(k as int)),
            decreases suite.results.len() - k,
        {
            let result = &suite.results[k];
            let pairs = metric_pairs(&result.metrics);
            let ghost entries = metric_entries(result.metrics);
            let ghost base = rows.deep_view();
            let mut j: usize = 0;
            assert(rows.deep_view() =~= base + entry_records(result.name@, entries).take(0));
            while j < pairs.len()
                invariant
                    j <= pairs.len(),
                    pairs_view(pairs@) == entries,
                    rows.deep_view() == base + entry_records(result.name@, entries).take(j as int),
                decreases pairs.len() - j,
            {
                assert(entries[j as int] == (pairs@[j as int].0@, pairs@[j as int].1@));
                put(
                    &mut rows,
                    record(
                        result.name.clone(),
                        pairs[j].0.clone(),
                        pairs[j].1.clone(),
                        String::new(),
                        String::new(),
                    ),
                );
                assert(rows.deep_view() =~= base + entry_records(result.name@, entries).take(
                    j as int + 1,
                ));
                j = j + 1;
            }
            proof {
                assert(entry_records(result.name@, entries).take(j as int) =~= entry_records(
                    result.name@,
                    entries,
                ));
                assert(suite.results@.take(k as int + 1).drop_last() =~= suite.results@.take(
                    k as int,
                ));
                assert(suite.results@.take(k as int + 1).last() == suite.results@[k as int]);
                assert(rows.deep_view() =~= upper + metric_records(
                    suite.results@.take(k as int + 1),
                ));
            }
            k = k + 1;
        }
        assert(suite.results@.take(k as int) =~= suite.results@);
        assert(rows.deep_view() =~= suite_records(*suite, hostname@));
        rows
    }
}


} // verus!
