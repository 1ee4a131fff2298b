use sqlite_async_bench::plan::Config;
use sqlite_async_bench::record::{completion_ratio, to_benchmark_result};
use sqlite_async_bench::stats::{Ratio, TestResults};

fn config() -> Config {
    Config {
        duration: 60,
        worker_threads: 4,
        readers_per_db: 3,
        write_delays: vec![100],
        num_databases: vec![10],
    }
}

fn measured() -> TestResults {
    let mut results = TestResults::new();
    for us in (1..=200).rev() {
        results.record_read(us * 10);
    }
    for us in [3000, 1000, 2000] {
        results.record_write(us);
    }
    results.sorted()
}

#[test]
fn record_of_a_measurement() {
    let record = to_benchmark_result("spawn_blocking", 10, 100, 6000, &config(), &measured());
    assert_eq!(record.approach, "spawn_blocking");
    assert_eq!(record.num_databases, 10);
    assert_eq!(record.write_delay_ms, 100);
    assert_eq!(record.test_duration_secs, 60);
    assert_eq!(record.worker_threads, 4);
    assert_eq!(record.readers_per_db, 3);
    assert_eq!(record.read_requests_completed, 200);
    assert_eq!(record.read_throughput_per_sec, Ratio { numerator: 200, denominator: 60 });
    assert_eq!(record.avg_read_latency_us, Ratio { numerator: 201000, denominator: 200 });
    assert_eq!(record.p50_read_latency_us, 1010);
    assert_eq!(record.p99_read_latency_us, 1990);
    assert_eq!(record.max_read_latency_us, 2000);
    assert_eq!(record.write_ops_completed, 3);
    assert_eq!(record.write_throughput_per_sec, Ratio { numerator: 3, denominator: 60 });
    assert_eq!(record.avg_write_latency_us, Ratio { numerator: 6000, denominator: 3 });
    assert_eq!(record.p99_write_latency_us, 3000);
    assert_eq!(record.write_completion_ratio, Ratio { numerator: 3, denominator: 6000 });
}

#[test]
fn record_of_nothing() {
    let record =
        to_benchmark_result("direct_blocking", 1, 0, 0, &config(), &TestResults::new());
    assert_eq!(record.read_requests_completed, 0);
    assert_eq!(record.avg_read_latency_us, Ratio { numerator: 0, denominator: 1 });
    assert_eq!(record.p50_read_latency_us, 0);
    assert_eq!(record.p99_read_latency_us, 0);
    assert_eq!(record.max_read_latency_us, 0);
    assert_eq!(record.p99_write_latency_us, 0);
    assert_eq!(record.write_completion_ratio, Ratio { numerator: 1, denominator: 1 });
}

#[test]
fn completion_where_nothing_is_expected() {
    assert_eq!(completion_ratio(5, 0), Ratio { numerator: 1, denominator: 1 });
    assert_eq!(completion_ratio(0, 0), Ratio { numerator: 1, denominator: 1 });
    assert_eq!(completion_ratio(5, 4), Ratio { numerator: 5, denominator: 4 });
    assert_eq!(completion_ratio(0, 4), Ratio { numerator: 0, denominator: 4 });
}

#[test]
fn ordered_percentiles_in_a_record() {
    let record = to_benchmark_result("tokio_rusqlite", 10, 100, 1, &config(), &measured());
    assert!(record.p50_read_latency_us <= record.p99_read_latency_us);
    assert!(record.p99_read_latency_us <= record.max_read_latency_us);
}
