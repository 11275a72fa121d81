//! Burn-in test execution engine: the result model, the suite aggregator,
//! the scoring rules and the scheduler that drives workload units.

pub mod engine;
pub mod reporters;
