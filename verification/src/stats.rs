//! Latency samples of one measurement and the figures drawn from them.

use vstd::prelude::*;

verus! {

// ---------------------------------------------------------------------------
// Models
// ---------------------------------------------------------------------------

/// No sample is smaller than one before it.
pub open spec fn ascending(s: Seq<u64>) -> bool {
    forall|i: int, j: int| 0 <= i <= j < s.len() ==> s[i] <= s[j]
}

/// All samples added up.
pub open spec fn total(s: Seq<u64>) -> nat
    decreases s.len(),
{
    if s.len() == 0 {
        0
    } else {
        total(s.drop_last()) + s.last() as nat
    }
}

/// The largest sample; zero where there is none.
pub open spec fn largest(s: Seq<u64>) -> nat
    decreases s.len(),
{
    if s.len() == 0 {
        0
    } else if s.last() as nat > largest(s.drop_last()) {
        s.last() as nat
    } else {
        largest(s.drop_last())
    }
}

/// The place of the `percent`th percentile among `len` ordered samples.
pub open spec fn percentile_place(len: nat, percent: nat) -> int {
    if len * percent / 100 < len {
        (len * percent / 100) as int
    } else {
        len - 1
    }
}

/// The `percent`th percentile; zero where there is no sample.
pub open spec fn percentile(s: Seq<u64>, percent: nat) -> nat {
    if s.len() == 0 {
        0
    } else {
        s[percentile_place(s.len(), percent)] as nat
    }
}

/// How many samples are at most `limit`.
pub open spec fn count_up_to(s: Seq<u64>, limit: nat) -> nat
    decreases s.len(),
{
    if s.len() == 0 {
        0
    } else {
        count_up_to(s.drop_last(), limit) + if s.last() <= limit { 1nat } else { 0nat }
    }
}

/// A quotient of two whole numbers, not yet divided.
#[derive(Clone, Copy, Debug, PartialEq, Eq, Structural)]
pub struct Ratio {
    /// What is divided.
    pub numerator: u64,
    /// What it is divided by.
    pub denominator: u64,
}

/// The mean of the samples; zero where there is none.
pub open spec fn mean(s: Seq<u64>) -> Ratio {
    if s.len() == 0 {
        Ratio { numerator: 0, denominator: 1 }
    } else {
        Ratio { numerator: total(s) as u64, denominator: s.len() as u64 }
    }
}

// ---------------------------------------------------------------------------
// Ordering
// ---------------------------------------------------------------------------

/// Puts the samples in ascending order.
///
/// Trusted: `slice::sort_unstable` of the standard library, on `u64`. Claimed of it: afterwards
/// the values are in ascending order, and each value occurs as often as before.
#[verifier::external_body]
fn sort_unstable(samples: &mut Vec<u64>)
    ensures
        ascending(final(samples)@),
        final(samples)@.to_multiset() == old(samples)@.to_multiset(),
{
    samples.sort_unstable();
}

// ---------------------------------------------------------------------------
// The samples of one measurement
// ---------------------------------------------------------------------------

/// What one measurement of one approach has yielded.
#[derive(Debug, Clone)]
pub struct TestResults {
    /// Reads that came to an end.
    pub read_requests_completed: u64,
    /// Writes that came to an end.
    pub write_ops_completed: u64,
    /// How long each read took, in microseconds.
    pub read_latencies_us: Vec<u64>,
    /// How long each write took, in microseconds.
    pub write_latencies_us: Vec<u64>,
}

impl TestResults {
    /// Each completed operation has left exactly one latency.
    pub open spec fn wf(self) -> bool {
        &&& self.read_requests_completed == self.read_latencies_us@.len()
        &&& self.write_ops_completed == self.write_latencies_us@.len()
    }

    /// A measurement in which nothing has happened yet.
    pub fn new() -> (results: Self)
        ensures
            results.wf(),
            results.read_requests_completed == 0,
            results.write_ops_completed == 0,
            results.read_latencies_us@ == Seq::<u64>::empty(),
            results.write_latencies_us@ == Seq::<u64>::empty(),
    {
        Self {
            read_requests_completed: 0,
            write_ops_completed: 0,
            read_latencies_us: Vec::new(),
            write_latencies_us: Vec::new(),
        }
    }

    /// Notes a read that took `elapsed_us` microseconds.
    pub fn record_read(&mut self, elapsed_us: u64)
        requires
            old(self).wf(),
        ensures
            final(self).wf(),
            final(self).read_requests_completed == old(self).read_requests_completed + 1,
            final(self).read_latencies_us@ == old(self).read_latencies_us@.push(elapsed_us),
            final(self).write_ops_completed == old(self).write_ops_completed,
            final(self).write_latencies_us == old(self).write_latencies_us,
    {
        self.read_latencies_us.push(elapsed_us);
        assert(self.read_latencies_us@.len() == self.read_latencies_us.len());
        self.read_requests_completed = self.read_requests_completed + 1;
    }

    /// Notes a write that took `elapsed_us` microseconds.
    pub fn record_write(&mut self, elapsed_us: u64)
        requires
            old(self).wf(),
        ensures
            final(self).wf(),
            final(self).write_ops_completed == old(self).write_ops_completed + 1,
            final(self).write_latencies_us@ == old(self).write_latencies_us@.push(elapsed_us),
            final(self).read_requests_completed == old(self).read_requests_completed,
            final(self).read_latencies_us == old(self).read_latencies_us,
    {
        self.write_latencies_us.push(elapsed_us);
        assert(self.write_latencies_us@.len() == self.write_latencies_us.len());
        self.write_ops_completed = self.write_ops_completed + 1;
    }

    /// The measurement with its latencies in ascending order.
    pub fn sorted(self) -> (results: Self)
        ensures
            results.read_requests_completed == self.read_requests_completed,
            results.write_ops_completed == self.write_ops_completed,
            ascending(results.read_latencies_us@),
            results.read_latencies_us@.to_multiset() == self.read_latencies_us@.to_multiset(),
            ascending(results.write_latencies_us@),
            results.write_latencies_us@.to_multiset() == self.write_latencies_us@.to_multiset(),
            self.wf() ==> results.wf(),
            forall|i: int, j: int|
                0 <= i <= j < results.read_latencies_us@.len() ==> results.read_latencies_us@[i]
                    <= results.read_latencies_us@[j],
            forall|i: int, j: int|
                0 <= i <= j < results.write_latencies_us@.len() ==> results.write_latencies_us@[i]
                    <= results.write_latencies_us@[j],
    {
        let mut reads = self.read_latencies_us;
        let mut writes = self.write_latencies_us;
        let ghost reads_before = reads@;
        let ghost writes_before = writes@;
        sort_unstable(&mut reads);
        sort_unstable(&mut writes);
        proof {
            reads_before.to_multiset_ensures();
            writes_before.to_multiset_ensures();
            reads@.to_multiset_ensures();
            writes@.to_multiset_ensures();
        }
        Self {
            read_requests_completed: self.read_requests_completed,
            write_ops_completed: self.write_ops_completed,
            read_latencies_us: reads,
            write_latencies_us: writes,
        }
    }

    /// The percentile of the samples, in microseconds, for a percentage in whole percent; zero
    /// where there is no sample.
    pub fn compute_percentile(latencies: &[u64], percent: u64) -> (us: u64)
        ensures
            us == percentile(latencies@, percent as nat),
            latencies@.len() == 0 ==> us == 0,
            latencies@.len() > 0 && percent < 100 ==> exists|k: int|
                #![trigger latencies@[k]]
                0 <= k < latencies@.len() && k * 100 <= latencies@.len() * percent < (k + 1) * 100
                    && us == latencies@[k],
            latencies@.len() > 0 && percent >= 100 ==> us == latencies@[latencies@.len() - 1],
    {
        let len = latencies.len();
        if len == 0 {
            return 0;
        }
        proof {
            percentile_stands_at_its_share(latencies@, percent as nat);
        }
        assert(len * percent <= 0xffff_ffff_ffff_ffff * 0xffff_ffff_ffff_ffff) by (nonlinear_arith)
            requires
                len <= 0xffff_ffff_ffff_ffff,
                percent <= 0xffff_ffff_ffff_ffff,
        ;
        let place: u128 = (len as u128) * (percent as u128) / 100;
        if place < len as u128 {
            latencies[place as usize]
        } else {
            latencies[len - 1]
        }
    }

    /// The mean of the samples, in microseconds and not yet divided; zero where there is no
    /// sample.
    pub fn compute_avg(latencies: &[u64]) -> (us: Ratio)
        requires
            total(latencies@) <= u64::MAX,
        ensures
            us == mean(latencies@),
            latencies@.len() > 0 ==> us.numerator == total(latencies@) && us.denominator
                == latencies@.len(),
            latencies@.len() == 0 ==> us.numerator == 0 && us.denominator > 0,
    {
        if latencies.len() == 0 {
            return Ratio { numerator: 0, denominator: 1 };
        }
        let mut sum: u64 = 0;
        let mut i: usize = 0;
        while i < latencies.len()
            invariant
                i <= latencies@.len(),
                sum == total(latencies@.take(i as int)),
                total(latencies@) <= u64::MAX,
            decreases latencies.len() - i,
        {
            proof {
                total_of_prefix(latencies@, i + 1);
                assert(latencies@.take(i + 1).drop_last() =~= latencies@.take(i as int));
            }
            sum = sum + latencies[i];
            i = i + 1;
        }
        assert(latencies@.take(latencies@.len() as int) =~= latencies@);
        Ratio { numerator: sum, denominator: latencies.len() as u64 }
    }

    /// The largest sample, in microseconds; zero where there is no sample.
    pub fn compute_max(latencies: &[u64]) -> (us: u64)
        ensures
            us == largest(latencies@),
            forall|i: int| 0 <= i < latencies@.len() ==> latencies@[i] <= us,
            latencies@.len() == 0 ==> us == 0,
            latencies@.len() > 0 ==> latencies@.contains(us),
    {
        proof {
            largest_is_maximum(latencies@);
        }
        let mut max: u64 = 0;
        let mut i: usize = 0;
        while i < latencies.len()
            invariant
                i <= latencies@.len(),
                max == largest(latencies@.take(i as int)),
            decreases latencies.len() - i,
        {
            assert(latencies@.take(i + 1).drop_last() =~= latencies@.take(i as int));
            if latencies[i] > max {
                max = latencies[i];
            }
            i = i + 1;
        }
        assert(latencies@.take(latencies@.len() as int) =~= latencies@);
        max
    }

    /// Whether the samples add up to a number of 64 bits.
    pub fn total_fits(latencies: &[u64]) -> (fits: bool)
        ensures
            fits == (total(latencies@) <= u64::MAX),
    {
        let mut sum: u64 = 0;
        let mut i: usize = 0;
        while i < latencies.len()
            invariant
                i <= latencies@.len(),
                sum == total(latencies@.take(i as int)),
            decreases latencies.len() - i,
        {
            proof {
                total_of_prefix(latencies@, i + 1);
                assert(latencies@.take(i + 1).drop_last() =~= latencies@.take(i as int));
            }
            if latencies[i] > u64::MAX - sum {
                return false;
            }
            sum = sum + latencies[i];
            i = i + 1;
        }
        assert(latencies@.take(latencies@.len() as int) =~= latencies@);
        true
    }
}

// ---------------------------------------------------------------------------
// Laws
// ---------------------------------------------------------------------------

/// The first samples add up to no more than all of them.
proof fn total_of_prefix(s: Seq<u64>, n: int)
    requires
        0 <= n <= s.len(),
    ensures
        total(s.take(n)) <= total(s),
    decreases s.len(),
{
    if n == s.len() {
        assert(s.take(n) =~= s);
    } else {
        assert(s.drop_last().take(n) =~= s.take(n));
        total_of_prefix(s.drop_last(), n);
    }
}

/// The largest sample is one of the samples, and none is larger.
pub proof fn largest_is_maximum(s: Seq<u64>)
    ensures
        forall|i: int| 0 <= i < s.len() ==> s[i] <= largest(s),
        s.len() > 0 ==> exists|i: int| 0 <= i < s.len() && s[i] == largest(s),
    decreases s.len(),
{
    if s.len() > 0 {
        let front = s.drop_last();
        largest_is_maximum(front);
        assert forall|i: int| 0 <= i < s.len() implies s[i] <= largest(s) by {
            if i < front.len() {
                assert(s[i] == front[i]);
            }
        }
        if s.last() as nat > largest(front) {
            assert(s[s.len() - 1] == largest(s));
        } else if front.len() > 0 {
            let i = choose|i: int| 0 <= i < front.len() && front[i] == largest(front);
            assert(s[i] == largest(s));
        } else {
            assert(s[0] == largest(s));
        }
    }
}

/// The place of a percentile is the place of a sample, and does not fall as the percentage rises.
pub proof fn percentile_place_in_range(len: nat, low: nat, high: nat)
    requires
        len > 0,
        low <= high,
    ensures
        0 <= percentile_place(len, low) <= percentile_place(len, high) < len,
{
    assert(len * low <= len * high) by (nonlinear_arith)
        requires
            low <= high,
    ;
    assert(0 <= len * low) by (nonlinear_arith);
}

/// Among ordered samples a higher percentage gives a percentile at least as large, and no
/// percentile exceeds the largest sample.
pub proof fn percentiles_are_ordered(s: Seq<u64>, low: nat, high: nat)
    requires
        ascending(s),
        low <= high,
    ensures
        percentile(s, low) <= percentile(s, high) <= largest(s),
{
    largest_is_maximum(s);
    if s.len() > 0 {
        percentile_place_in_range(s.len(), low, high);
    }
}

/// Among ordered samples the hundredth percentile is the largest sample.
pub proof fn hundredth_percentile_is_largest(s: Seq<u64>)
    requires
        ascending(s),
    ensures
        percentile(s, 100) == largest(s),
{
    largest_is_maximum(s);
    if s.len() > 0 {
        assert(s.len() * 100 / 100 == s.len());
        let i = choose|i: int| 0 <= i < s.len() && s[i] == largest(s);
        assert(s[i] <= s[s.len() - 1]);
    }
}

/// In a run of samples that are at most `limit`, all are counted.
proof fn count_of_low_prefix(s: Seq<u64>, limit: nat, n: int)
    requires
        0 <= n <= s.len(),
        forall|i: int| 0 <= i < n ==> s[i] <= limit,
    ensures
        count_up_to(s, limit) >= n,
    decreases s.len(),
{
    if s.len() > 0 {
        let front = s.drop_last();
        assert forall|i: int| 0 <= i < front.len() && i < n implies front[i] <= limit by {
            assert(front[i] == s[i]);
        }
        if n == s.len() {
            assert(s[n - 1] <= limit);
            count_of_low_prefix(front, limit, n - 1);
        } else {
            count_of_low_prefix(front, limit, n);
        }
    }
}

/// Among ordered samples, at least `percent` of every hundred are no larger than the
/// `percent`th percentile.
pub proof fn percentile_covers_its_share(s: Seq<u64>, percent: nat)
    requires
        ascending(s),
        percent <= 100,
    ensures
        count_up_to(s, percentile(s, percent)) * 100 >= s.len() * percent,
{
    if s.len() > 0 {
        let place = percentile_place(s.len(), percent);
        percentile_place_in_range(s.len(), percent, percent);
        count_of_low_prefix(s, percentile(s, percent), place + 1);
        let product = s.len() * percent;
        assert(product <= s.len() * 100) by (nonlinear_arith)
            requires
                product == s.len() * percent,
                percent <= 100,
        ;
        assert((place + 1) * 100 >= product);
    } else {
        assert(s.len() * percent == 0) by (nonlinear_arith)
            requires
                s.len() == 0,
        ;
    }
}

/// The samples add up to no more than if each were the largest of them: the mean is at most the
/// maximum.
pub proof fn mean_at_most_largest(s: Seq<u64>)
    ensures
        total(s) <= s.len() * largest(s),
    decreases s.len(),
{
    if s.len() > 0 {
        let front = s.drop_last();
        mean_at_most_largest(front);
        let (n, small, big) = (front.len(), largest(front), largest(s));
        assert(n * small <= n * big) by (nonlinear_arith)
            requires
                small <= big,
        ;
        assert((n + 1) * big == n * big + big) by (nonlinear_arith);
    }
}

/// Ordering the samples changes neither their number, their total nor the largest of them.
pub proof fn ordering_keeps_figures(before: Seq<u64>, after: Seq<u64>)
    requires
        before.to_multiset() == after.to_multiset(),
    ensures
        before.len() == after.len(),
        total(before) == total(after),
        largest(before) == largest(after),
    decreases before.len(),
{
    before.to_multiset_ensures();
    after.to_multiset_ensures();
    if before.len() > 0 {
        let last = before.last();
        assert(before.contains(last)) by {
            assert(before[before.len() - 1] == last);
        }
        assert(after.to_multiset().count(last) > 0);
        assert(after.contains(last));
        let k = choose|k: int| 0 <= k < after.len() && after[k] == last;
        let rest = after.remove(k);
        assert(before.drop_last() =~= before.remove(before.len() - 1));
        assert(before.drop_last().to_multiset() =~= rest.to_multiset());
        ordering_keeps_figures(before.drop_last(), rest);
        total_without(after, k);
        largest_is_maximum(before);
        largest_is_maximum(after);
        let i = choose|i: int| 0 <= i < before.len() && before[i] == largest(before);
        let j = choose|j: int| 0 <= j < after.len() && after[j] == largest(after);
        assert(before.contains(before[i]));
        assert(after.to_multiset().count(before[i]) > 0);
        assert(after.contains(before[i]));
        assert(after.contains(after[j]));
        assert(before.to_multiset().count(after[j]) > 0);
        assert(before.contains(after[j]));
    }
}

/// Taking one sample out lowers the total by that sample.
proof fn total_without(s: Seq<u64>, k: int)
    requires
        0 <= k < s.len(),
    ensures
        total(s) == total(s.remove(k)) + s[k],
    decreases s.len(),
{
    if k == s.len() - 1 {
        assert(s.remove(k) =~= s.drop_last());
    } else {
        let front = s.drop_last();
        total_without(front, k);
        assert(s.remove(k).drop_last() =~= front.remove(k));
        assert(s.remove(k).last() == s.last());
    }
}

/// The percentile is the sample before which the asked-for share of the samples stands, rounded
/// down to whole samples; from a hundred percent on it is the last one.
pub proof fn percentile_stands_at_its_share(s: Seq<u64>, percent: nat)
    requires
        s.len() > 0,
    ensures
        percent < 100 ==> exists|k: int|
            #![trigger s[k]]
            0 <= k < s.len() && k * 100 <= s.len() * percent < (k + 1) * 100 && percentile(
                s,
                percent,
            ) == s[k],
        percent >= 100 ==> percentile(s, percent) == s[s.len() - 1],
{
    let len = s.len() as int;
    let product = len * percent;
    if percent < 100 {
        assert(0 <= product < len * 100) by (nonlinear_arith)
            requires
                product == len * percent,
                0 <= percent < 100,
                len > 0,
        ;
        let k = product / 100;
        assert(k * 100 <= product < (k + 1) * 100);
        assert(0 <= k < len);
        assert(percentile(s, percent) == s[k]);
    } else {
        assert(product >= len * 100) by (nonlinear_arith)
            requires
                product == len * percent,
                percent >= 100,
                len > 0,
        ;
    }
}

/// Counting the samples that are at most a limit is counting those that a filter keeps.
pub proof fn count_up_to_counts(s: Seq<u64>, limit: nat)
    ensures
        count_up_to(s, limit) == s.filter(|x: u64| x <= limit).len(),
    decreases s.len(),
{
    reveal(Seq::filter);
    if s.len() > 0 {
        count_up_to_counts(s.drop_last(), limit);
    }
}

/// A filter keeps no more samples than stand before the place from which on it keeps none.
proof fn filter_keeps_only_low(s: Seq<u64>, limit: nat, n: int)
    requires
        0 <= n <= s.len(),
        forall|i: int| n <= i < s.len() ==> s[i] >= limit,
    ensures
        s.filter(|x: u64| x < limit).len() <= n,
    decreases s.len(),
{
    reveal(Seq::filter);
    if s.len() > 0 {
        let front = s.drop_last();
        if n == s.len() {
            filter_keeps_only_low(front, limit, n - 1);
        } else {
            assert(s[s.len() - 1] >= limit);
            filter_keeps_only_low(front, limit, n);
        }
    }
}

/// Among ordered samples, of every hundred no more than `percent` are smaller than the `percent`th
/// percentile.
pub proof fn percentile_exceeds_no_more_than_its_share(s: Seq<u64>, percent: nat)
    requires
        ascending(s),
        percent < 100,
    ensures
        s.filter(|x: u64| x < percentile(s, percent)).len() * 100 <= s.len() * percent,
{
    reveal(Seq::filter);
    if s.len() > 0 {
        percentile_stands_at_its_share(s, percent);
        let k = choose|k: int|
            #![trigger s[k]]
            0 <= k < s.len() && k * 100 <= s.len() * percent < (k + 1) * 100 && percentile(
                s,
                percent,
            ) == s[k];
        filter_keeps_only_low(s, percentile(s, percent), k);
    } else {
        assert(s.len() * percent == 0) by (nonlinear_arith)
            requires
                s.len() == 0,
        ;
    }
}

/// Where nothing was measured, every figure is zero.
pub proof fn figures_of_no_samples(percent: nat)
    ensures
        percentile(Seq::empty(), percent) == 0,
        largest(Seq::empty()) == 0,
        total(Seq::empty()) == 0,
        mean(Seq::empty()).numerator == 0,
        mean(Seq::empty()).denominator > 0,
{
}

/// The total of all samples is that of the first ones and that of the others; a single sample is
/// its own total.
pub proof fn total_in_parts(a: Seq<u64>, b: Seq<u64>, sample: u64)
    ensures
        total(seq![sample]) == sample,
        total(a + b) == total(a) + total(b),
    decreases b.len(),
{
    reveal_with_fuel(total, 2);
    assert(seq![sample].drop_last() =~= Seq::<u64>::empty());
    if b.len() == 0 {
        assert(a + b =~= a);
    } else {
        total_in_parts(a, b.drop_last(), sample);
        assert((a + b).drop_last() =~= a + b.drop_last());
    }
}

/// The mean is the total shared out among all samples.
pub proof fn mean_shares_out_the_total(s: Seq<u64>)
    requires
        s.len() > 0,
        s.len() <= u64::MAX,
        total(s) <= u64::MAX,
    ensures
        mean(s).denominator == s.len(),
        mean(s).numerator * s.len() == total(s) * mean(s).denominator,
        mean(s).numerator == total(s),
{
}

/// A measurement is well formed exactly where it has as many latencies as completed operations.
pub proof fn completed_operations_leave_latencies(results: TestResults)
    ensures
        results.wf() <==> results.read_requests_completed == results.read_latencies_us@.len()
            && results.write_ops_completed == results.write_latencies_us@.len(),
{
}

} // verus!
