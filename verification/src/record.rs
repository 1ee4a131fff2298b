//! The record of one measurement.

use crate::plan::Config;
use crate::stats;
use crate::stats::{Ratio, TestResults};
use vstd::prelude::*;

verus! {

/// What is kept of one measurement. Quotients are not yet divided, and latencies are in
/// microseconds.
#[derive(Debug)]
pub struct BenchmarkResult {
    /// The name of the approach.
    pub approach: String,
    /// How many databases were in use.
    pub num_databases: usize,
    /// How long each write was held up, in milliseconds.
    pub write_delay_ms: u64,
    /// How long the measurement lasted, in seconds.
    pub test_duration_secs: u64,
    /// How many threads the asynchronous runtime had.
    pub worker_threads: usize,
    /// How many readers each database had.
    pub readers_per_db: usize,
    /// Reads that came to an end.
    pub read_requests_completed: u64,
    /// Reads per second.
    pub read_throughput_per_sec: Ratio,
    /// The mean of the read latency.
    pub avg_read_latency_us: Ratio,
    /// The median of the read latency.
    pub p50_read_latency_us: u64,
    /// The 99th percentile of the read latency.
    pub p99_read_latency_us: u64,
    /// The largest read latency.
    pub max_read_latency_us: u64,
    /// Writes that came to an end.
    pub write_ops_completed: u64,
    /// Writes per second.
    pub write_throughput_per_sec: Ratio,
    /// The mean of the write latency.
    pub avg_write_latency_us: Ratio,
    /// The 99th percentile of the write latency.
    pub p99_write_latency_us: u64,
    /// The share of the expected writes that came to an end. A low share shows that the writers
    /// did not get to run.
    pub write_completion_ratio: Ratio,
}

/// The share of the expected writes that were completed; all of them where none were expected.
pub open spec fn completion(completed: u64, expected: u64) -> Ratio {
    if expected > 0 {
        Ratio { numerator: completed, denominator: expected }
    } else {
        Ratio { numerator: 1, denominator: 1 }
    }
}

/// The share of the expected writes that were completed; all of them where none were expected.
pub fn completion_ratio(completed: u64, expected: u64) -> (ratio: Ratio)
    ensures
        ratio == completion(completed, expected),
        expected > 0 ==> ratio.numerator == completed && ratio.denominator == expected,
        expected == 0 ==> ratio.numerator == 1 && ratio.denominator == 1,
{
    if expected > 0 {
        Ratio { numerator: completed, denominator: expected }
    } else {
        Ratio { numerator: 1, denominator: 1 }
    }
}

/// The record of one measurement.
pub fn to_benchmark_result(
    approach: &str,
    num_databases: usize,
    write_delay_ms: u64,
    expected_writes: u64,
    config: &Config,
    results: &TestResults,
) -> (record: BenchmarkResult)
    requires
        stats::total(results.read_latencies_us@) <= u64::MAX,
        stats::total(results.write_latencies_us@) <= u64::MAX,
    ensures
        record.approach@ == approach@,
        record.num_databases == num_databases,
        record.write_delay_ms == write_delay_ms,
        record.test_duration_secs == config.duration,
        record.worker_threads == config.worker_threads,
        record.readers_per_db == config.readers_per_db,
        record.read_requests_completed == results.read_requests_completed,
        record.read_throughput_per_sec == (Ratio {
            numerator: results.read_requests_completed,
            denominator: config.duration,
        }),
        record.avg_read_latency_us == stats::mean(results.read_latencies_us@),
        record.p50_read_latency_us == stats::percentile(results.read_latencies_us@, 50),
        record.p99_read_latency_us == stats::percentile(results.read_latencies_us@, 99),
        record.max_read_latency_us == stats::largest(results.read_latencies_us@),
        record.write_ops_completed == results.write_ops_completed,
        record.write_throughput_per_sec == (Ratio {
            numerator: results.write_ops_completed,
            denominator: config.duration,
        }),
        record.avg_write_latency_us == stats::mean(results.write_latencies_us@),
        record.p99_write_latency_us == stats::percentile(results.write_latencies_us@, 99),
        record.write_completion_ratio == completion(results.write_ops_completed, expected_writes),
        expected_writes > 0 ==> record.write_completion_ratio.numerator
            == results.write_ops_completed && record.write_completion_ratio.denominator
            == expected_writes,
        expected_writes == 0 ==> record.write_completion_ratio.numerator == 1
            && record.write_completion_ratio.denominator == 1,
        stats::ascending(results.read_latencies_us@) ==> record.p50_read_latency_us
            <= record.p99_read_latency_us <= record.max_read_latency_us,
{
    proof {
        if stats::ascending(results.read_latencies_us@) {
            stats::percentiles_are_ordered(results.read_latencies_us@, 50, 99);
        }
    }
    let reads = results.read_latencies_us.as_slice();
    let writes = results.write_latencies_us.as_slice();
    BenchmarkResult {
        approach: String::from_str(approach),
        num_databases,
        write_delay_ms,
        test_duration_secs: config.duration,
        worker_threads: config.worker_threads,
        readers_per_db: config.readers_per_db,
        read_requests_completed: results.read_requests_completed,
        read_throughput_per_sec: Ratio {
            numerator: results.read_requests_completed,
            denominator: config.duration,
        },
        avg_read_latency_us: TestResults::compute_avg(reads),
        p50_read_latency_us: TestResults::compute_percentile(reads, 50),
        p99_read_latency_us: TestResults::compute_percentile(reads, 99),
        max_read_latency_us: TestResults::compute_max(reads),
        write_ops_completed: results.write_ops_completed,
        write_throughput_per_sec: Ratio {
            numerator: results.write_ops_completed,
            denominator: config.duration,
        },
        avg_write_latency_us: TestResults::compute_avg(writes),
        p99_write_latency_us: TestResults::compute_percentile(writes, 99),
        write_completion_ratio: completion_ratio(results.write_ops_completed, expected_writes),
    }
}

// ---------------------------------------------------------------------------
// Laws
// ---------------------------------------------------------------------------

/// The share that was completed, times what was expected, is what was completed; where nothing was
/// expected, all of it was completed.
pub proof fn completion_is_the_share(completed: u64, expected: u64)
    ensures
        completion(completed, expected).denominator > 0,
        expected > 0 ==> completion(completed, expected).numerator * expected == completed
            * completion(completed, expected).denominator,
        expected > 0 ==> completion(completed, expected).denominator == expected,
        expected == 0 ==> completion(completed, expected).numerator == completion(
            completed,
            expected,
        ).denominator,
{
}

} // verus!
