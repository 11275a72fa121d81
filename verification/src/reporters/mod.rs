//! The reporter contract, and the parts of the reporters that compute.

pub mod csv;
pub mod json;
pub mod text;

use vstd::prelude::*;
use crate::engine::config::TestConfig;
use crate::engine::runner::TestSuite;
use crate::engine::test::TestResult;

verus! {

/// Reporter trait for outputting test results.
///
/// The scheduler calls these at fixed points of a run and assumes nothing of
/// what they do.
pub trait Reporter: Send + Sync {
    /// Report the start of testing
    fn report_start(&self, config: &TestConfig);

    /// Report the start of a specific test
    fn report_test_start(&self, test_name: &str);

    /// Report the result of a specific test
    fn report_test_result(&self, result: &TestResult);

    /// Report the final results of the test suite
    fn report_suite_result(&self, suite: &TestSuite);

    /// Report a warning message
    fn report_warning(&self, message: &str);

    /// Report an informational message
    fn report_info(&self, message: &str);
}

} // verus!
