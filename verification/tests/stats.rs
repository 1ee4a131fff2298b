use sqlite_async_bench::stats::{Ratio, TestResults};

/// The percentile as a fraction of the samples, computed with floating point.
fn float_percentile(samples: &[u64], percentile: f64) -> f64 {
    if samples.is_empty() {
        return 0.0;
    }
    let place = ((samples.len() as f64 * percentile / 100.0) as usize).min(samples.len() - 1);
    samples[place] as f64 / 1000.0
}

#[test]
fn new_results_are_empty() {
    let results = TestResults::new();
    assert_eq!(results.read_requests_completed, 0);
    assert_eq!(results.write_ops_completed, 0);
    assert!(results.read_latencies_us.is_empty());
    assert!(results.write_latencies_us.is_empty());
}

#[test]
fn recorded_operations_are_counted() {
    let mut results = TestResults::new();
    results.record_read(30);
    results.record_write(900);
    results.record_read(10);
    assert_eq!(results.read_requests_completed, 2);
    assert_eq!(results.write_ops_completed, 1);
    assert_eq!(results.read_latencies_us, vec![30, 10]);
    assert_eq!(results.write_latencies_us, vec![900]);
}

#[test]
fn sorting_orders_both_kinds_of_latencies() {
    let mut results = TestResults::new();
    for us in [5, 3, 9, 3, 0, u64::MAX, 7] {
        results.record_read(us);
    }
    for us in [200, 100] {
        results.record_write(us);
    }
    let sorted = results.sorted();
    assert_eq!(sorted.read_latencies_us, vec![0, 3, 3, 5, 7, 9, u64::MAX]);
    assert_eq!(sorted.write_latencies_us, vec![100, 200]);
    assert_eq!(sorted.read_requests_completed, 7);
    assert_eq!(sorted.write_ops_completed, 2);
}

#[test]
fn sorting_keeps_total_and_maximum() {
    let mut results = TestResults::new();
    for us in [8, 1, 6, 1] {
        results.record_read(us);
    }
    let before = results.read_latencies_us.clone();
    let after = results.sorted().read_latencies_us;
    assert_ne!(before, after);
    assert_eq!(TestResults::compute_avg(&before), TestResults::compute_avg(&after));
    assert_eq!(TestResults::compute_max(&before), TestResults::compute_max(&after));
}

#[test]
fn percentiles_of_no_samples_are_zero() {
    assert_eq!(TestResults::compute_percentile(&[], 50), 0);
    assert_eq!(TestResults::compute_percentile(&[], 99), 0);
}

#[test]
fn percentiles_of_a_hundred_samples() {
    let samples: Vec<u64> = (1..=100).collect();
    assert_eq!(TestResults::compute_percentile(&samples, 0), 1);
    assert_eq!(TestResults::compute_percentile(&samples, 50), 51);
    assert_eq!(TestResults::compute_percentile(&samples, 99), 100);
    assert_eq!(TestResults::compute_percentile(&samples, 100), 100);
    assert_eq!(TestResults::compute_percentile(&samples, u64::MAX), 100);
}

#[test]
fn percentile_of_one_sample_is_that_sample() {
    for percent in [0, 1, 50, 99, 100, 250] {
        assert_eq!(TestResults::compute_percentile(&[42], percent), 42);
    }
}

#[test]
fn percentiles_match_floating_point() {
    for len in 0..2500u64 {
        let samples: Vec<u64> = (0..len).map(|i| i * 7).collect();
        for percent in [50u64, 99] {
            let exact = TestResults::compute_percentile(&samples, percent);
            assert_eq!(exact as f64 / 1000.0, float_percentile(&samples, percent as f64));
        }
    }
}

#[test]
fn percentiles_rise_to_the_maximum() {
    let samples = [3, 3, 4, 10, 11, 40];
    let mut before = 0;
    for percent in 0..=100 {
        let value = TestResults::compute_percentile(&samples, percent);
        assert!(before <= value);
        before = value;
    }
    assert_eq!(before, TestResults::compute_max(&samples));
}

#[test]
fn percentile_covers_its_share_of_samples() {
    let samples = [1, 1, 2, 5, 8, 9, 9];
    for percent in 0..=100u64 {
        let limit = TestResults::compute_percentile(&samples, percent);
        let count = samples.iter().filter(|&&us| us <= limit).count() as u64;
        assert!(count * 100 >= samples.len() as u64 * percent);
    }
}

#[test]
fn mean_is_total_over_number() {
    assert_eq!(
        TestResults::compute_avg(&[1, 2, 6]),
        Ratio { numerator: 9, denominator: 3 }
    );
    assert_eq!(TestResults::compute_avg(&[]), Ratio { numerator: 0, denominator: 1 });
}

#[test]
fn mean_is_at_most_the_maximum() {
    let samples = [4, 8, 15, 16, 23, 42];
    let mean = TestResults::compute_avg(&samples);
    assert!(mean.numerator <= mean.denominator * TestResults::compute_max(&samples));
}

#[test]
fn maximum_needs_no_order() {
    assert_eq!(TestResults::compute_max(&[]), 0);
    assert_eq!(TestResults::compute_max(&[5, 9, 2]), 9);
    assert_eq!(TestResults::compute_max(&[u64::MAX, 0]), u64::MAX);
}

#[test]
fn totals_beyond_64_bits_are_noticed() {
    assert!(TestResults::total_fits(&[]));
    assert!(TestResults::total_fits(&[u64::MAX - 1, 1]));
    assert!(!TestResults::total_fits(&[u64::MAX, 1]));
    assert!(!TestResults::total_fits(&[1, u64::MAX, 0]));
}
