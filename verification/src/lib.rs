//! A benchmark of three ways to use SQLite under an asynchronous runtime: calling it directly on
//! the runtime's worker threads, calling it on the runtime's pool of blocking threads, and giving
//! each database a thread of its own.
//!
//! The library holds what the benchmark decides, computes and writes; it neither opens databases
//! nor reads the clock nor touches files.
//!
//! - [`plan`] and [`approach`]: which measurements a run has.
//! - [`workers`] and [`workload`]: what the tasks of a measurement do, and with which rows.
//! - [`stats`] and [`record`]: what is kept of a measurement.
//! - [`rows`], [`metrics`] and [`latency`]: results, and what reports look up in them.
//! - [`summary`], [`charts`] and [`ascii`]: the reports of a run.
//! - [`plot`]: the reports drawn anew from stored results.
//! - [`console`], [`clock`], [`delay`] and [`text`]: what reports and messages are made of.

pub mod approach;
pub mod ascii;
pub mod charts;
pub mod clock;
pub mod console;
pub mod delay;
pub mod latency;
pub mod metrics;
pub mod plan;
pub mod plot;
pub mod record;
pub mod rows;
pub mod stats;
pub mod summary;
pub mod text;
pub mod workers;
pub mod workload;
