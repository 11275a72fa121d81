pub mod aggregate;
pub mod config;
pub mod error;
pub mod hardware;
pub mod harness;
pub mod interrupt;
pub mod metrics;
pub mod runner;
pub mod scoring;
pub mod text;
pub mod time;
