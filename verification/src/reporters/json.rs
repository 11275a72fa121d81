//! The JSON report: what the reporter decides. Building and writing the JSON
//! text is left to the caller.

use vstd::prelude::*;
use crate::engine::test::IssueSeverity;
use crate::engine::test::TestStatus;
use crate::reporters::csv::severity_word;
use crate::reporters::csv::status_word;

verus! {

/// The word that stands for a severity among the recommendations, in lower
/// case.
pub open spec fn severity_word_lower(severity: IssueSeverity) -> Seq<char> {
    match severity {
        IssueSeverity::Critical => "critical"@,
        IssueSeverity::High => "high"@,
        IssueSeverity::Medium => "medium"@,
        IssueSeverity::Low => "low"@,
    }
}

/// JSON reporter for machine-readable output
pub struct JsonReporter {
    pub output_file: Option<String>,
    pub verbose: bool,
}

impl JsonReporter {
    /// Create a new JSON reporter
    pub fn new(output_file: Option<String>, verbose: bool) -> (reporter: Self)
        ensures
            reporter.output_file == output_file,
            reporter.verbose == verbose,
    {
        Self { output_file, verbose }
    }

    /// Convert test status to string
    pub fn status_to_string(status: TestStatus) -> (word: &'static str)
        ensures
            word@ == status_word(status),
    {
        match status {
            TestStatus::Completed => "PASS",
            TestStatus::Failed => "FAIL",
            TestStatus::Partial => "PARTIAL",
            TestStatus::Skipped => "SKIPPED",
            TestStatus::Pending => "PENDING",
            TestStatus::Running => "RUNNING",
        }
    }

    /// The severity of an issue as it is written with a test, in upper case.
    pub fn severity_upper(severity: IssueSeverity) -> (word: &'static str)
        ensures
            word@ == severity_word(severity),
    {
        match severity {
            IssueSeverity::Critical => "CRITICAL",
            IssueSeverity::High => "HIGH",
            IssueSeverity::Medium => "MEDIUM",
            IssueSeverity::Low => "LOW",
        }
    }

    /// The severity of an issue as it is written among the recommendations,
    /// in lower case.
    pub fn severity_lower(severity: IssueSeverity) -> (word: &'static str)
        ensures
            word@ == severity_word_lower(severity),
    {
        match severity {
            IssueSeverity::Critical => "critical",
            IssueSeverity::High => "high",
            IssueSeverity::Medium => "medium",
            IssueSeverity::Low => "low",
        }
    }

    /// Whether an event of the run is written as it happens: only in verbose
    /// mode, and only when the report goes to standard output.
    pub fn streams_events(&self) -> (b: bool)
        ensures
            b == (self.verbose && self.output_file is None),
    {
        self.verbose && self.output_file.is_none()
    }
}

} // verus!
