use sqlite_async_bench::latency::{latency_text, parse_latency, shorter, Latency};

fn stored(ms: f64) -> String {
    let mut writer = csv::Writer::from_writer(vec![]);
    writer.serialize((ms,)).unwrap();
    let bytes = writer.into_inner().unwrap();
    String::from(String::from_utf8(bytes).unwrap().trim())
}

#[test]
fn whole_milliseconds_have_no_point() {
    assert_eq!(latency_text(Latency { ms: 0, us: 0 }), "0");
    assert_eq!(latency_text(Latency { ms: 112, us: 0 }), "112");
    assert_eq!(latency_text(Latency { ms: u64::MAX, us: 0 }), format!("{}", u64::MAX));
}

#[test]
fn microseconds_without_trailing_zeros() {
    assert_eq!(latency_text(Latency { ms: 110, us: 523 }), "110.523");
    assert_eq!(latency_text(Latency { ms: 110, us: 520 }), "110.52");
    assert_eq!(latency_text(Latency { ms: 110, us: 500 }), "110.5");
    assert_eq!(latency_text(Latency { ms: 0, us: 7 }), "0.007");
    assert_eq!(latency_text(Latency { ms: 0, us: 70 }), "0.07");
}

#[test]
fn whole_numbers_are_latencies() {
    assert_eq!(parse_latency("0"), Some(Latency { ms: 0, us: 0 }));
    assert_eq!(parse_latency("112"), Some(Latency { ms: 112, us: 0 }));
    assert_eq!(parse_latency("007"), Some(Latency { ms: 7, us: 0 }));
    assert_eq!(
        parse_latency("18446744073709551615"),
        Some(Latency { ms: u64::MAX, us: 0 })
    );
}

#[test]
fn fractions_of_up_to_three_places() {
    assert_eq!(parse_latency("112.0"), Some(Latency { ms: 112, us: 0 }));
    assert_eq!(parse_latency("1.5"), Some(Latency { ms: 1, us: 500 }));
    assert_eq!(parse_latency("1.05"), Some(Latency { ms: 1, us: 50 }));
    assert_eq!(parse_latency("110.523"), Some(Latency { ms: 110, us: 523 }));
}

#[test]
fn other_texts_are_no_latencies() {
    for text in [
        "", ".", ".5", "1.", "1.2345", "-1", "+1", "1e3", "1.2.3", "1,5", " 1", "1 ", "1.5 ", "x",
        "1.x", "NaN", "inf", "18446744073709551616", "99999999999999999999999",
    ] {
        assert_eq!(parse_latency(text), None, "{}", text);
    }
}

#[test]
fn latencies_read_back() {
    for us in [0u64, 1, 9, 10, 99, 100, 120, 123, 999] {
        for ms in [0u64, 1, 10, 4711, u64::MAX] {
            let latency = Latency { ms, us };
            assert_eq!(parse_latency(&latency_text(latency)), Some(latency));
        }
    }
}

#[test]
fn latencies_as_the_benchmark_stores_them() {
    assert_eq!(stored(112000u64 as f64 / 1000.0), "112.0");
    assert_eq!(stored(110523u64 as f64 / 1000.0), "110.523");
    for us in (0..2_000_000u64).step_by(37) {
        let text = stored(us as f64 / 1000.0);
        assert_eq!(parse_latency(&text), Some(Latency { ms: us / 1000, us: us % 1000 }));
    }
}

#[test]
fn order_of_latencies() {
    let a = Latency { ms: 1, us: 999 };
    let b = Latency { ms: 2, us: 0 };
    let c = Latency { ms: 2, us: 1 };
    assert!(shorter(a, b) && shorter(b, c) && shorter(a, c));
    assert!(!shorter(b, a) && !shorter(c, b) && !shorter(a, a));
}
