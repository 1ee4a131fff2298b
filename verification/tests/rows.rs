use sqlite_async_bench::approach::Approach;
use sqlite_async_bench::rows::{
    ascending_databases, ascending_delays, distinct_databases, distinct_delays, find_row, Row,
};

fn row(approach: &str, num_databases: usize, write_delay_ms: u64) -> Row<u8> {
    Row { approach: String::from(approach), num_databases, write_delay_ms, metrics: 0 }
}

fn sample() -> Vec<Row<u8>> {
    vec![
        row("spawn_blocking", 50, 1000),
        row("direct_blocking", 1, 100),
        row("unknown", 10, 1000),
        row("direct_blocking", 1, 100),
        row("tokio_rusqlite", 50, 10000),
    ]
}

#[test]
fn search_gives_the_first_row() {
    let rows = sample();
    assert_eq!(find_row(&rows, Approach::DirectBlocking, 1, 100), Some(1));
    assert_eq!(find_row(&rows, Approach::SpawnBlocking, 50, 1000), Some(0));
    assert_eq!(find_row(&rows, Approach::TokioRusqlite, 50, 10000), Some(4));
}

#[test]
fn search_heeds_every_part_of_the_scenario() {
    let rows = sample();
    assert_eq!(find_row(&rows, Approach::DirectBlocking, 50, 100), None);
    assert_eq!(find_row(&rows, Approach::DirectBlocking, 1, 1000), None);
    assert_eq!(find_row(&rows, Approach::TokioRusqlite, 1, 100), None);
    assert_eq!(find_row(&rows, Approach::TokioRusqlite, 10, 1000), None);
}

#[test]
fn axes_ascend_without_repetition() {
    let rows = sample();
    assert_eq!(ascending_delays(&rows), vec![100, 1000, 10000]);
    assert_eq!(ascending_databases(&rows), vec![1, 10, 50]);
}

#[test]
fn axes_of_no_rows_are_empty() {
    let rows: Vec<Row<u8>> = vec![];
    assert!(ascending_delays(&rows).is_empty());
    assert!(ascending_databases(&rows).is_empty());
    assert!(distinct_delays(&rows).is_empty());
    assert!(distinct_databases(&rows).is_empty());
}

#[test]
fn distinct_values_come_once() {
    let rows = sample();
    let mut delays = distinct_delays(&rows);
    delays.sort();
    assert_eq!(delays, ascending_delays(&rows));
    let mut databases = distinct_databases(&rows);
    databases.sort();
    assert_eq!(databases, ascending_databases(&rows));
}
