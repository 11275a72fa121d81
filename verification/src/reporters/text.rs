//! The text report: what it says. Colours and printing are left to the
//! caller.

use vstd::prelude::*;
use vstd::string::*;
use std::time::Duration;
use crate::engine::test::issue_texts;
use crate::engine::test::IssueSeverity;
use crate::engine::test::IssueText;
use crate::engine::test::TestIssue;
use crate::engine::test::TestResult;
use crate::engine::test::TestStatus;
use crate::engine::text::decimal_digits;
use crate::engine::text::decimal_text;
use crate::engine::time::duration_secs;

verus! {

/// Text reporter for console output
pub struct TextReporter {
    pub verbose: bool,
    pub quiet: bool,
}

/// A number of whole seconds in hours, minutes and seconds, without the
/// leading parts that are zero: "2h 0m 5s", "3m 20s", "45s".
pub open spec fn duration_words(total_secs: nat) -> Seq<char> {
    let hours = total_secs / 3600;
    let minutes = (total_secs % 3600) / 60;
    let seconds = total_secs % 60;
    if hours > 0 {
        decimal_digits(hours) + "h "@ + decimal_digits(minutes) + "m "@ + decimal_digits(seconds)
            + "s"@
    } else if minutes > 0 {
        decimal_digits(minutes) + "m "@ + decimal_digits(seconds) + "s"@
    } else {
        decimal_digits(seconds) + "s"@
    }
}

/// The sign and word that stand for a status in the text report.
pub open spec fn status_label(status: TestStatus) -> Seq<char> {
    match status {
        TestStatus::Completed => "✓ PASS"@,
        TestStatus::Failed => "✗ FAIL"@,
        TestStatus::Partial => "⚠ PARTIAL"@,
        TestStatus::Skipped => "⏸ SKIPPED"@,
        TestStatus::Pending => "⋯ PENDING"@,
        TestStatus::Running => "⟳ RUNNING"@,
    }
}

/// The issues of all results, in the order of the results.
pub open spec fn all_issue_texts(results: Seq<TestResult>) -> Seq<IssueText>
    decreases results.len(),
{
    if results.len() == 0 {
        Seq::empty()
    } else {
        all_issue_texts(results.drop_last()) + issue_texts(results.last().issues@)
    }
}

/// Picks the critical issues.
pub open spec fn critical_ones() -> spec_fn(IssueText) -> bool {
    |issue: IssueText| issue.severity == IssueSeverity::Critical
}

/// Picks the issues of high severity.
pub open spec fn high_ones() -> spec_fn(IssueText) -> bool {
    |issue: IssueText| issue.severity == IssueSeverity::High
}

/// Picks the issues that are neither critical nor of high severity.
pub open spec fn lesser_ones() -> spec_fn(IssueText) -> bool {
    |issue: IssueText|
        issue.severity != IssueSeverity::Critical && issue.severity != IssueSeverity::High
}

/// The first `limit` items, or all where there are fewer.
pub open spec fn at_most<T>(items: Seq<T>, limit: nat) -> Seq<T> {
    if items.len() > limit {
        items.take(limit as int)
    } else {
        items
    }
}

/// How many issues a report lists in full.
pub const MAX_LISTED_ISSUES: usize = 5;

/// The recommendations of a report: the issues it lists, most severe first.
pub struct Recommendations {
    pub critical: Vec<TestIssue>,
    pub high: Vec<TestIssue>,
    pub other: Vec<TestIssue>,
}

impl Recommendations {
    /// Whether `self` is the selection from the given issues: all of them by
    /// severity where there are at most five, else the first two critical,
    /// the first two of high severity and the first of the others.
    pub open spec fn is_selection_from(self, issues: Seq<IssueText>) -> bool {
        if issues.len() > MAX_LISTED_ISSUES {
            &&& issue_texts(self.critical@) == at_most(issues.filter(critical_ones()), 2)
            &&& issue_texts(self.high@) == at_most(issues.filter(high_ones()), 2)
            &&& issue_texts(self.other@) == at_most(issues.filter(lesser_ones()), 1)
        } else {
            &&& issue_texts(self.critical@) == issues.filter(critical_ones())
            &&& issue_texts(self.high@) == issues.filter(high_ones())
            &&& issue_texts(self.other@) == issues.filter(lesser_ones())
        }
    }
}

/// Adds a copy of an issue behind the others.
fn add_copy(issues: &mut Vec<TestIssue>, issue: &TestIssue)
    ensures
        issue_texts(final(issues)@) == issue_texts(old(issues)@).push(issue.text()),
{
    issues.push(issue.duplicate());
    assert(issue_texts(issues@) =~= issue_texts(old(issues)@).push(issue.text()));
}

/// Cuts a list of issues down to its first `limit`.
fn keep_first(issues: &mut Vec<TestIssue>, limit: usize)
    ensures
        issue_texts(final(issues)@) == at_most(issue_texts(old(issues)@), limit as nat),
{
    if issues.len() > limit {
        issues.truncate(limit);
        assert(issue_texts(issues@) =~= issue_texts(old(issues)@).take(limit as int));
    }
}

/// Gathers the issues of all results, in the order of the results.
pub fn collect_issues(results: &Vec<TestResult>) -> (issues: Vec<TestIssue>)
    ensures
        issue_texts(issues@) == all_issue_texts(results@),
{
    let mut issues: Vec<TestIssue> = Vec::new();
    let mut i: usize = 0;
    assert(results@.take(0) =~= Seq::<TestResult>::empty());
    assert(issue_texts(issues@) =~= Seq::<IssueText>::empty());
    while i < results.len()
        invariant
            i <= results.len(),
            issue_texts(issues@) == all_issue_texts(results@.take(i as int)),
        decreases results.len() - i,
    {
        let own = &results[i].issues;
        let ghost base = issue_texts(issues@);
        let mut j: usize = 0;
        assert(issue_texts(own@).take(0) =~= Seq::<IssueText>::empty());
        while j < own.len()
            invariant
                j <= own.len(),
                issue_texts(issues@) == base + issue_texts(own@).take(j as int),
            decreases own.len() - j,
        {
            add_copy(&mut issues, &own[j]);
            assert(issue_texts(own@).take(j as int + 1) =~= issue_texts(own@).take(j as int).push(
                own@[j as int].text(),
            ));
            assert(issue_texts(issues@) =~= base + issue_texts(own@).take(j as int + 1));
            j = j + 1;
        }
        proof {
            assert(issue_texts(own@).take(j as int) =~= issue_texts(own@));
            assert(results@.take(i as int + 1).drop_last() =~= results@.take(i as int));
            assert(results@.take(i as int + 1).last() == results@[i as int]);
        }
        i = i + 1;
    }
    assert(results@.take(i as int) =~= results@);
    issues
}

impl TextReporter {
    /// Create a new text reporter
    pub fn new(verbose: bool, quiet: bool) -> (reporter: Self)
        ensures
            reporter.verbose == verbose,
            reporter.quiet == quiet,
    {
        Self { verbose, quiet }
    }

    /// Format a duration in a human-readable format
    pub fn format_duration(&self, duration: Duration) -> (text: String)
        ensures
            text@ == duration_words(duration_secs(duration) as nat),
    {
        let total_secs = duration.as_secs();
        let hours = total_secs / 3600;
        let minutes = (total_secs % 3600) / 60;
        let seconds = total_secs % 60;
        if hours > 0 {
            decimal_text(hours).concat("h ").concat(decimal_text(minutes).as_str()).concat(
                "m ",
            ).concat(decimal_text(seconds).as_str()).concat("s")
        } else if minutes > 0 {
            decimal_text(minutes).concat("m ").concat(decimal_text(seconds).as_str()).concat("s")
        } else {
            decimal_text(seconds).concat("s")
        }
    }

    /// The sign and word for a test status, before any colour is put on it.
    pub fn format_status(&self, status: TestStatus) -> (label: &'static str)
        ensures
            label@ == status_label(status),
    {
        match status {
            TestStatus::Completed => "✓ PASS",
            TestStatus::Failed => "✗ FAIL",
            TestStatus::Partial => "⚠ PARTIAL",
            TestStatus::Skipped => "⏸ SKIPPED",
            TestStatus::Pending => "⋯ PENDING",
            TestStatus::Running => "⟳ RUNNING",
        }
    }

    /// Selects the issues that the closing report lists as recommendations.
    pub fn select_recommendations(issues: &Vec<TestIssue>) -> (chosen: Recommendations)
        ensures
            chosen.is_selection_from(issue_texts(issues@)),
    {
        let ghost all = issue_texts(issues@);
        let mut critical: Vec<TestIssue> = Vec::new();
        let mut high: Vec<TestIssue> = Vec::new();
        let mut other: Vec<TestIssue> = Vec::new();
        let mut i: usize = 0;
        proof {
            reveal(Seq::filter);
            assert(all.take(0) =~= Seq::<IssueText>::empty());
            assert(issue_texts(critical@) =~= Seq::<IssueText>::empty());
            assert(issue_texts(high@) =~= Seq::<IssueText>::empty());
            assert(issue_texts(other@) =~= Seq::<IssueText>::empty());
        }
        while i < issues.len()
            invariant
                i <= issues.len(),
                all == issue_texts(issues@),
                issue_texts(critical@) == all.take(i as int).filter(critical_ones()),
                issue_texts(high@) == all.take(i as int).filter(high_ones()),
                issue_texts(other@) == all.take(i as int).filter(lesser_ones()),
            decreases issues.len() - i,
        {
            proof {
                reveal(Seq::filter);
                assert(all.take(i as int + 1).drop_last() =~= all.take(i as int));
                assert(all.take(i as int + 1).last() == issues@[i as int].text());
            }
            match issues[i].severity {
                IssueSeverity::Critical => {
                    add_copy(&mut critical, &issues[i]);
                },
                IssueSeverity::High => {
                    add_copy(&mut high, &issues[i]);
                },
                _ => {
                    add_copy(&mut other, &issues[i]);
                },
            }
            i = i + 1;
        }
        assert(all.take(i as int) =~= all);
        if issues.len() > MAX_LISTED_ISSUES {
            keep_first(&mut critical, 2);
            keep_first(&mut high, 2);
            keep_first(&mut other, 1);
        }
        Recommendations { critical, high, other }
    }
}

/// The widest name among the results, or 10 where there is no result.
pub open spec fn name_column_width(lengths: Seq<usize>) -> int
    decreases lengths.len(),
{
    if lengths.len() == 0 {
        10
    } else if lengths.len() == 1 {
        lengths[0] as int
    } else if lengths.last() >= name_column_width(lengths.drop_last()) {
        lengths.last() as int
    } else {
        name_column_width(lengths.drop_last())
    }
}

/// The width of the name column for names of the given lengths.
pub fn column_width(lengths: &Vec<usize>) -> (width: usize)
    ensures
        width == name_column_width(lengths@),
        forall|i: int| 0 <= i < lengths@.len() ==> lengths@[i] <= width,
{
    if lengths.len() == 0 {
        return 10;
    }
    let mut width: usize = lengths[0];
    let mut i: usize = 1;
    assert(lengths@.take(1).drop_last() =~= Seq::<usize>::empty());
    while i < lengths.len()
        invariant
            1 <= i <= lengths.len(),
            width == name_column_width(lengths@.take(i as int)),
            forall|j: int| 0 <= j < i ==> lengths@[j] <= width,
        decreases lengths.len() - i,
    {
        assert(lengths@.take(i as int + 1).drop_last() =~= lengths@.take(i as int));
        if lengths[i] >= width {
            width = lengths[i];
        }
        i = i + 1;
    }
    assert(lengths@.take(i as int) =~= lengths@);
    width
}

} // verus!
