use sqlite_async_bench::approach::Approach;
use sqlite_async_bench::metrics::{get_value, Figure, Metric, RunMetrics};
use sqlite_async_bench::plan::{expected_writes, Config, Trial};
use sqlite_async_bench::rows::{find_row, Row};

fn config(duration: u64, write_delays: Vec<u64>, num_databases: Vec<usize>) -> Config {
    Config { duration, worker_threads: 4, readers_per_db: 3, write_delays, num_databases }
}

#[test]
fn expectation_of_one_scenario() {
    assert_eq!(expected_writes(120, 100, 10), Some(12000));
    assert_eq!(expected_writes(120, 10000, 100), Some(1200));
    assert_eq!(expected_writes(10, 3000, 2), Some(6));
    assert_eq!(expected_writes(10, 0, 1), Some(10000));
    assert_eq!(expected_writes(10, 1, 1), Some(10000));
    assert_eq!(expected_writes(1, 1001, 5), Some(0));
    assert_eq!(expected_writes(0, 100, 5), Some(0));
}

#[test]
fn expectation_beyond_64_bits() {
    assert_eq!(expected_writes(u64::MAX, 100, 1), None);
    assert_eq!(expected_writes(u64::MAX / 1000, 0, 2), None);
    assert_eq!(
        expected_writes(u64::MAX / 1000, 0, 1),
        Some(u64::MAX / 1000 * 1000)
    );
}

#[test]
fn default_run_has_thirty_six_measurements() {
    let run = config(120, vec![100, 1000, 10000], vec![1, 10, 50, 100]);
    assert!(run.check());
    assert_eq!(run.total_tests(), 36);
    assert_eq!(run.estimated_minutes(), 72);
    assert_eq!(run.plan().len(), 36);
}

#[test]
fn estimate_is_in_whole_minutes() {
    let run = config(10, vec![100], vec![1, 2]);
    assert_eq!(run.total_tests(), 6);
    assert_eq!(run.estimated_minutes(), 1);
    assert_eq!(config(9, vec![100], vec![1, 2]).estimated_minutes(), 0);
}

#[test]
fn plan_goes_by_databases_then_delays_then_approaches() {
    let run = config(10, vec![100, 2000], vec![1, 5]);
    assert!(run.check());
    let plan = run.plan();
    let mut expected = Vec::new();
    let approaches =
        [Approach::DirectBlocking, Approach::SpawnBlocking, Approach::TokioRusqlite];
    for (num_databases, write_delay_ms, expected_writes) in
        [(1, 100, 100), (1, 2000, 5), (5, 100, 500), (5, 2000, 25)]
    {
        for approach in approaches {
            expected.push(Trial {
                number: expected.len() + 1,
                num_databases,
                write_delay_ms,
                expected_writes,
                approach,
            });
        }
    }
    assert_eq!(plan, expected);
}

#[test]
fn runs_without_scenarios_are_empty() {
    let run = config(u64::MAX, vec![], vec![1, 2]);
    assert!(run.check());
    assert_eq!(run.total_tests(), 0);
    assert_eq!(run.estimated_minutes(), 0);
    assert!(run.plan().is_empty());
}

#[test]
fn runs_beyond_64_bits_are_refused() {
    assert!(!config(u64::MAX, vec![100], vec![1]).check());
    assert!(!config(u64::MAX / 1000, vec![0], vec![2]).check());
    assert!(config(u64::MAX / 1000, vec![0], vec![1]).check());
    assert!(config(u64::MAX / 1000, vec![1000], vec![2]).check());
}

#[test]
fn rows_of_a_run_are_found_by_combination() {
    let run = config(10, vec![100, 1000, 100], vec![1, 5]);
    let rows: Vec<Row<usize>> = run
        .plan()
        .iter()
        .map(|trial| Row {
            approach: String::from(trial.approach.key()),
            num_databases: trial.num_databases,
            write_delay_ms: trial.write_delay_ms,
            metrics: trial.number,
        })
        .collect();
    let place = find_row(&rows, Approach::TokioRusqlite, 5, 1000);
    assert_eq!(place, Some(14));
    assert_eq!(rows[14].metrics, 15);
    // The delay that is named twice is found where it was measured first.
    assert_eq!(find_row(&rows, Approach::DirectBlocking, 5, 100), Some(9));
    assert_eq!(find_row(&rows, Approach::DirectBlocking, 5, 200), None);
    assert_eq!(find_row(&rows, Approach::DirectBlocking, 2, 100), None);
}

#[test]
fn figures_are_looked_up_by_metric() {
    let figure = |text: &str| Figure {
        one_decimal: String::from(text),
        shortest: format!("{}0", text),
    };
    let rows = vec![Row {
        approach: String::from("spawn_blocking"),
        num_databases: 10,
        write_delay_ms: 100,
        metrics: RunMetrics {
            write_completion_percent: figure("99.0"),
            read_throughput_per_sec: figure("512.5"),
            p99_read_latency_ms: figure("101.5"),
        },
    }];
    let show = |approach: Approach, metric: Metric| {
        let found = get_value(&rows, approach, 10, 100, metric);
        (found.one_decimal, found.shortest)
    };
    let pair = |a: &str, b: &str| (String::from(a), String::from(b));
    let spawn = Approach::SpawnBlocking;
    assert_eq!(show(spawn, Metric::WriteCompletion), pair("99.0", "99.00"));
    assert_eq!(show(spawn, Metric::ReadThroughput), pair("512.5", "512.50"));
    assert_eq!(show(spawn, Metric::P99ReadLatency), pair("101.5", "101.50"));
    assert_eq!(show(Approach::DirectBlocking, Metric::ReadThroughput), pair("0.0", "0.0"));
}

#[test]
fn approaches_have_names_of_their_own() {
    assert_eq!(Approach::DirectBlocking.key(), "direct_blocking");
    assert_eq!(Approach::SpawnBlocking.key(), "spawn_blocking");
    assert_eq!(Approach::TokioRusqlite.key(), "tokio_rusqlite");
    assert_eq!(Approach::DirectBlocking.progress_name(), "DIRECT BLOCKING");
    assert_eq!(Approach::SpawnBlocking.progress_name(), "SPAWN_BLOCKING");
    assert_eq!(Approach::TokioRusqlite.progress_name(), "TOKIO-RUSQLITE");
}
