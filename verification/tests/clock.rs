use sqlite_async_bench::clock::{readable_moment, run_files, run_stamp, Moment};

fn moment(year: i32, month: u32, day: u32, hour: u32, minute: u32, second: u32) -> Moment {
    Moment { year, month, day, hour, minute, second }
}

#[test]
fn stamp_of_a_moment() {
    let m = moment(2025, 3, 9, 7, 5, 1);
    assert!(m.check());
    assert_eq!(run_stamp(&m), "20250309_070501");
    assert_eq!(run_stamp(&moment(2024, 12, 31, 23, 59, 59)), "20241231_235959");
}

#[test]
fn readable_notation_of_a_moment() {
    assert_eq!(readable_moment(&moment(2025, 3, 9, 7, 5, 1)), "2025-03-09 07:05:01");
    assert_eq!(readable_moment(&moment(1999, 11, 30, 0, 0, 0)), "1999-11-30 00:00:00");
}

#[test]
fn years_of_other_than_four_digits() {
    assert_eq!(readable_moment(&moment(0, 1, 1, 0, 0, 0)), "0000-01-01 00:00:00");
    assert_eq!(readable_moment(&moment(33, 1, 1, 0, 0, 0)), "0033-01-01 00:00:00");
    assert_eq!(readable_moment(&moment(-1, 1, 1, 0, 0, 0)), "-0001-01-01 00:00:00");
    assert_eq!(readable_moment(&moment(12345, 1, 1, 0, 0, 0)), "+12345-01-01 00:00:00");
    assert_eq!(run_stamp(&moment(-262143, 1, 1, 0, 0, 0)), "-2621430101_000000");
    assert_eq!(run_stamp(&moment(262142, 12, 31, 23, 59, 59)), "+2621421231_235959");
}

#[test]
fn leap_days() {
    assert!(moment(2024, 2, 29, 0, 0, 0).check());
    assert!(moment(2000, 2, 29, 0, 0, 0).check());
    assert!(moment(0, 2, 29, 0, 0, 0).check());
    assert!(moment(-4, 2, 29, 0, 0, 0).check());
    assert!(!moment(2023, 2, 29, 0, 0, 0).check());
    assert!(!moment(1900, 2, 29, 0, 0, 0).check());
    assert_eq!(run_stamp(&moment(2024, 2, 29, 0, 0, 0)), "20240229_000000");
}

#[test]
fn moments_outside_the_calendar() {
    assert!(!moment(2025, 0, 1, 0, 0, 0).check());
    assert!(!moment(2025, 13, 1, 0, 0, 0).check());
    assert!(!moment(2025, 1, 0, 0, 0, 0).check());
    assert!(!moment(2025, 1, 32, 0, 0, 0).check());
    assert!(!moment(2025, 4, 31, 0, 0, 0).check());
    assert!(!moment(2025, 1, 1, 24, 0, 0).check());
    assert!(!moment(2025, 1, 1, 0, 60, 0).check());
    assert!(!moment(2025, 1, 1, 0, 0, 60).check());
    assert!(!moment(262143, 1, 1, 0, 0, 0).check());
    assert!(!moment(-262144, 1, 1, 0, 0, 0).check());
}

#[test]
fn valid_moments_are_those_of_the_calendar() {
    for year in [-400, -1, 0, 4, 100, 1900, 2000, 2023, 2024, 262142, 262143] {
        for month in 0..=13 {
            for day in 0..=32 {
                let known = chrono::NaiveDate::from_ymd_opt(year, month, day).is_some();
                assert_eq!(moment(year, month, day, 12, 0, 0).check(), known);
            }
        }
    }
}

#[test]
fn stamps_tell_seconds_apart() {
    let one = run_stamp(&moment(2025, 3, 9, 7, 5, 1));
    let two = run_stamp(&moment(2025, 3, 9, 7, 5, 2));
    assert_ne!(one, two);
    assert_eq!(one.len(), 15);
    assert_eq!(one.find('_'), Some(8));
}

#[test]
fn files_are_named_after_the_stamp() {
    let files = run_files("20250309_070501");
    assert_eq!(files.csv, "benchmark_20250309_070501.csv");
    assert_eq!(files.summary, "summary_20250309_070501.md");
    assert_eq!(files.charts, "charts_20250309_070501.html");
    assert_eq!(files.ascii, "ascii_20250309_070501.txt");
}
