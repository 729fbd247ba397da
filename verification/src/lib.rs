//! Export of health-tracker samples to a time-series sink.
//!
//! The library covers the computational core of the pipeline: building the
//! parameterized selection statement, parsing calendar-date bounds, rendering
//! samples into the textual line protocol in fixed-size batches, and deciding
//! the outcome of each publish step. Reading the source database and carrying
//! the HTTP traffic are left to the surrounding binary.

pub mod date;
pub mod digits;
pub mod error;
pub mod publish;
pub mod query;
pub mod run;
pub mod sample;
