use sqlite_async_bench::delay::format_delay;
use sqlite_async_bench::text::{
    align_right, bracketed_list, count_list, decimal_text, number_list, repeat_text,
    wide_decimal_text,
};

#[test]
fn numbers_in_decimal_notation() {
    for n in [0, 7, 9, 10, 99, 100, 1000, 20304, 999_999, u64::MAX] {
        assert_eq!(decimal_text(n), format!("{}", n));
        assert_eq!(decimal_text(n).parse::<u64>(), Ok(n));
    }
    assert_eq!(wide_decimal_text(u128::MAX), format!("{}", u128::MAX));
}

#[test]
fn repetition_of_a_unit() {
    assert_eq!(repeat_text("=", 80), "=".repeat(80));
    assert_eq!(repeat_text("█", 3), "███");
    assert_eq!(repeat_text("ab", 2), "abab");
    assert_eq!(repeat_text("x", 0), "");
}

#[test]
fn alignment_counts_characters() {
    assert_eq!(align_right("DBs", 10), format!("{:>10}", "DBs"));
    assert_eq!(align_right("∞", 12), format!("{:>12}", "∞"));
    assert_eq!(align_right("", 2), "  ");
    assert_eq!(align_right("too wide", 3), "too wide");
    assert_eq!(align_right("fits", 4), "fits");
}

#[test]
fn lists_in_brackets() {
    assert_eq!(number_list(&vec![]), "[]");
    assert_eq!(number_list(&vec![100]), format!("{:?}", vec![100]));
    assert_eq!(number_list(&vec![100, 1000, 10000]), format!("{:?}", vec![100, 1000, 10000]));
    assert_eq!(count_list(&vec![1, 10, 50]), format!("{:?}", vec![1, 10, 50]));
    assert_eq!(
        bracketed_list(&vec![String::from("0.5"), String::from("12.0")]),
        format!("{:?}", vec![0.5, 12.0])
    );
}

#[test]
fn delays_in_their_unit() {
    assert_eq!(format_delay(0), "0ms");
    assert_eq!(format_delay(100), "100ms");
    assert_eq!(format_delay(999), "999ms");
    assert_eq!(format_delay(1000), "1s");
    assert_eq!(format_delay(1999), "1s");
    assert_eq!(format_delay(10000), "10s");
    assert_eq!(format_delay(u64::MAX), format!("{}s", u64::MAX / 1000));
}

#[test]
fn delays_share_a_name_only_within_a_second() {
    assert_eq!(format_delay(2000), format_delay(2999));
    assert_ne!(format_delay(2000), format_delay(3000));
    assert_ne!(format_delay(1), format_delay(1000));
    assert_ne!(format_delay(998), format_delay(999));
}
