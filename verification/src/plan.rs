//! What is measured, in which order, and what each measurement is expected to yield.

use crate::approach;
use crate::approach::Approach;
use crate::rows;
use crate::rows::Row;
use vstd::prelude::*;

verus! {

/// The settings of one benchmark run.
#[derive(Debug)]
pub struct Config {
    /// How long each measurement lasts, in seconds.
    pub duration: u64,
    /// How many threads the asynchronous runtime has.
    pub worker_threads: usize,
    /// How many readers each database has.
    pub readers_per_db: usize,
    /// The write delays to measure, in milliseconds.
    pub write_delays: Vec<u64>,
    /// The numbers of databases to measure.
    pub num_databases: Vec<usize>,
}

/// One measurement of the run.
#[derive(Clone, Copy, Debug, PartialEq, Eq, Structural)]
pub struct Trial {
    /// Its number within the run, counted from one.
    pub number: usize,
    /// How many databases are in use.
    pub num_databases: usize,
    /// How long each write is held up, in milliseconds.
    pub write_delay_ms: u64,
    /// How many writes all writers together are expected to complete.
    pub expected_writes: u64,
    /// The approach that is measured.
    pub approach: Approach,
}

/// How many writes `databases` writers complete in `duration` seconds if each write takes `delay`
/// milliseconds, and at least one.
pub open spec fn expected_total(duration: nat, delay: nat, databases: nat) -> nat {
    (duration * 1000) / (if delay > 1 {
        delay
    } else {
        1
    }) * databases
}

impl Config {
    /// How many measurements the run has.
    pub open spec fn trial_count(self) -> nat {
        self.num_databases@.len() * self.write_delays@.len() * 3
    }

    /// The measurement at place `k`: the numbers of databases in turn, for each the write delays
    /// in turn, for each the approaches in turn.
    pub open spec fn trial_at(self, k: int) -> Trial {
        let scenario = k / 3;
        let databases = self.num_databases@[scenario / self.write_delays@.len() as int];
        let delay = self.write_delays@[scenario % self.write_delays@.len() as int];
        Trial {
            number: (k + 1) as usize,
            num_databases: databases,
            write_delay_ms: delay,
            expected_writes: expected_total(
                self.duration as nat,
                delay as nat,
                databases as nat,
            ) as u64,
            approach: approach::approach_at(k % 3),
        }
    }

    /// All measurements in the order in which they are made.
    pub open spec fn trials(self) -> Seq<Trial> {
        Seq::new(self.trial_count(), |k: int| self.trial_at(k))
    }

    /// All counts and times of the run are machine numbers.
    pub open spec fn fits(self) -> bool {
        &&& self.trial_count() <= usize::MAX
        &&& self.trial_count() * self.duration <= u64::MAX
        &&& self.trial_count() > 0 ==> self.duration * 1000 <= u64::MAX
        &&& forall|d: int, w: int|
            0 <= d < self.num_databases@.len() && 0 <= w < self.write_delays@.len()
                ==> expected_total(
                self.duration as nat,
                #[trigger] self.write_delays@[w] as nat,
                #[trigger] self.num_databases@[d] as nat,
            ) <= u64::MAX
    }
}

/// How many writes are expected in one scenario, unless that is more than 64 bits can hold.
pub fn expected_writes(duration: u64, delay: u64, databases: usize) -> (writes: Option<u64>)
    ensures
        match writes {
            Some(n) => n == expected_total(duration as nat, delay as nat, databases as nat)
                && duration * 1000 <= u64::MAX,
            None => duration * 1000 > u64::MAX || expected_total(
                duration as nat,
                delay as nat,
                databases as nat,
            ) > u64::MAX,
        },
{
    let divisor: u64 = if delay > 1 {
        delay
    } else {
        1
    };
    match duration.checked_mul(1000) {
        Some(total_ms) => {
            let per_database = total_ms / divisor;
            per_database.checked_mul(databases as u64)
        },
        None => None,
    }
}

impl Config {
    /// Whether all counts and times of the run are machine numbers.
    pub fn check(&self) -> (ok: bool)
        ensures
            ok == self.fits(),
    {
        let d = self.num_databases.len();
        let w = self.write_delays.len();
        let count = match d.checked_mul(w) {
            Some(scenarios) => match scenarios.checked_mul(3) {
                Some(count) => count,
                None => return false,
            },
            None => {
                assert(d * w * 3 > usize::MAX);
                return false;
            },
        };
        match (count as u64).checked_mul(self.duration) {
            Some(_) => {},
            None => return false,
        }
        if count == 0 {
            assert forall|i: int, j: int|
                0 <= i < self.num_databases@.len() && 0 <= j
                    < self.write_delays@.len() implies expected_total(
                self.duration as nat,
                #[trigger] self.write_delays@[j] as nat,
                #[trigger] self.num_databases@[i] as nat,
            ) <= u64::MAX by {
                assert(d * w > 0) by (nonlinear_arith)
                    requires
                        d > 0,
                        w > 0,
                ;
            }
            return true;
        }
        if self.duration > u64::MAX / 1000 {
            return false;
        }
        let mut i: usize = 0;
        while i < d
            invariant
                i <= d,
                d == self.num_databases@.len(),
                w == self.write_delays@.len(),
                self.duration * 1000 <= u64::MAX,
                self.trial_count() <= usize::MAX,
                self.trial_count() * self.duration <= u64::MAX,
                forall|a: int, b: int|
                    0 <= a < i && 0 <= b < w ==> expected_total(
                        self.duration as nat,
                        #[trigger] self.write_delays@[b] as nat,
                        #[trigger] self.num_databases@[a] as nat,
                    ) <= u64::MAX,
            decreases d - i,
        {
            let mut j: usize = 0;
            while j < w
                invariant
                    i < d,
                    j <= w,
                    d == self.num_databases@.len(),
                    w == self.write_delays@.len(),
                    self.duration * 1000 <= u64::MAX,
                    self.trial_count() <= usize::MAX,
                    self.trial_count() * self.duration <= u64::MAX,
                    forall|a: int, b: int|
                        0 <= a < i && 0 <= b < w ==> expected_total(
                            self.duration as nat,
                            #[trigger] self.write_delays@[b] as nat,
                            #[trigger] self.num_databases@[a] as nat,
                        ) <= u64::MAX,
                    forall|b: int|
                        0 <= b < j ==> expected_total(
                            self.duration as nat,
                            #[trigger] self.write_delays@[b] as nat,
                            self.num_databases@[i as int] as nat,
                        ) <= u64::MAX,
                decreases w - j,
            {
                match expected_writes(self.duration, self.write_delays[j], self.num_databases[i]) {
                    Some(_) => {},
                    None => return false,
                }
                j = j + 1;
            }
            i = i + 1;
        }
        true
    }

    /// How many measurements the run has.
    pub fn total_tests(&self) -> (n: usize)
        requires
            self.fits(),
        ensures
            n == self.trial_count(),
            n == self.num_databases@.len() * self.write_delays@.len() * 3,
    {
        let (d, w) = (self.num_databases.len(), self.write_delays.len());
        assert(d * w <= d * w * 3) by (nonlinear_arith);
        d * w * 3
    }

    /// How many whole minutes the run will take.
    pub fn estimated_minutes(&self) -> (minutes: u64)
        requires
            self.fits(),
        ensures
            minutes == self.trial_count() * self.duration / 60,
            minutes * 60 <= self.num_databases@.len() * self.write_delays@.len() * 3 * self.duration
                < (minutes + 1) * 60,
    {
        let n = self.total_tests();
        (n as u64) * self.duration / 60
    }

    /// All measurements in the order in which they are made.
    pub fn plan(&self) -> (plan: Vec<Trial>)
        requires
            self.fits(),
        ensures
            plan@ == self.trials(),
    {
        let mut plan: Vec<Trial> = Vec::new();
        let total = self.total_tests();
        let w = self.write_delays.len();
        let mut k: usize = 0;
        while k < total
            invariant
                self.fits(),
                k <= total,
                total == self.trial_count(),
                w == self.write_delays@.len(),
                plan@.len() == k,
                forall|m: int| 0 <= m < k ==> plan@[m] == self.trial_at(m),
            decreases total - k,
        {
            proof {
                trial_indices(k as int, self.num_databases@.len() as int, w as int);
            }
            let scenario = k / 3;
            let databases = self.num_databases[scenario / w];
            let delay = self.write_delays[scenario % w];
            let expected = match expected_writes(self.duration, delay, databases) {
                Some(n) => n,
                None => 0,
            };
            let turn = k % 3;
            let approach = if turn == 0 {
                Approach::DirectBlocking
            } else if turn == 1 {
                Approach::SpawnBlocking
            } else {
                Approach::TokioRusqlite
            };
            plan.push(
                Trial {
                    number: k + 1,
                    num_databases: databases,
                    write_delay_ms: delay,
                    expected_writes: expected,
                    approach,
                },
            );
            k = k + 1;
        }
        assert(plan@ =~= self.trials());
        plan
    }
}

// ---------------------------------------------------------------------------
// Laws
// ---------------------------------------------------------------------------

/// A place within the run names a number of databases and a write delay.
proof fn trial_indices(k: int, d: int, w: int)
    requires
        0 <= k < d * w * 3,
        0 <= d,
        0 <= w,
    ensures
        w > 0,
        0 <= (k / 3) / w < d,
        0 <= (k / 3) % w < w,
{
    let scenario = k / 3;
    assert(scenario < d * w) by (nonlinear_arith)
        requires
            0 <= k < d * w * 3,
            scenario == k / 3,
    ;
    assert(w > 0) by (nonlinear_arith)
        requires
            0 <= scenario < d * w,
            0 <= d,
            0 <= w,
            scenario == k / 3,
            0 <= k,
    ;
    assert(0 <= scenario / w < d && 0 <= scenario % w < w) by (nonlinear_arith)
        requires
            0 <= scenario < d * w,
            w > 0,
            0 <= k,
            scenario == k / 3,
    ;
}

/// Every approach is measured for every number of databases with every write delay: that
/// combination stands at a place of its own in the run.
pub proof fn run_covers_every_combination(config: Config, d: int, w: int, a: int)
    requires
        config.fits(),
        0 <= d < config.num_databases@.len(),
        0 <= w < config.write_delays@.len(),
        0 <= a < 3,
    ensures
        ({
            let k = (d * config.write_delays@.len() + w) * 3 + a;
            &&& 0 <= k < config.trials().len()
            &&& config.trials()[k].number == k + 1
            &&& config.trials()[k].num_databases == config.num_databases@[d]
            &&& config.trials()[k].write_delay_ms == config.write_delays@[w]
            &&& config.trials()[k].approach == approach::approach_at(a)
            &&& config.trials()[k].expected_writes == expected_total(
                config.duration as nat,
                config.write_delays@[w] as nat,
                config.num_databases@[d] as nat,
            )
        }),
{
    let n = config.write_delays@.len() as int;
    let m = config.num_databases@.len() as int;
    let scenario = d * n + w;
    let k = scenario * 3 + a;
    assert(0 <= scenario < m * n) by (nonlinear_arith)
        requires
            0 <= d < m,
            0 <= w < n,
            scenario == d * n + w,
    ;
    assert(scenario / n == d && scenario % n == w) by {
        vstd::arithmetic::div_mod::lemma_fundamental_div_mod_converse(scenario, n, d, w);
    }
    assert(k / 3 == scenario);
    assert(k % 3 == a);
    assert(0 <= k < m * n * 3);
}

/// Each measurement of the run is of one of the asked-for combinations.
pub proof fn run_measures_only_what_is_asked(config: Config, k: int)
    requires
        config.fits(),
        0 <= k < config.trials().len(),
    ensures
        config.num_databases@.contains(config.trials()[k].num_databases),
        config.write_delays@.contains(config.trials()[k].write_delay_ms),
        config.trials()[k].number == k + 1,
{
    let (d, w) = (config.num_databases@.len() as int, config.write_delays@.len() as int);
    trial_indices(k, d, w);
    assert(config.num_databases@[(k / 3) / w] == config.trials()[k].num_databases);
    assert(config.write_delays@[(k / 3) % w] == config.trials()[k].write_delay_ms);
}

/// The rows are those of the run: one for each measurement, in the order in which they were made.
pub open spec fn rows_of_run<M>(config: Config, rows: Seq<Row<M>>) -> bool {
    &&& rows.len() == config.trials().len()
    &&& forall|k: int|
        0 <= k < rows.len() ==> (#[trigger] rows[k]).is_about(
            config.trials()[k].approach.name(),
            config.trials()[k].num_databases as nat,
            config.trials()[k].write_delay_ms as nat,
        )
}

/// Looking up a combination among the rows of a run gives the row of the measurement that was made
/// of it, the first one where the settings name a number of databases or a write delay repeatedly.
pub proof fn run_rows_are_found<M>(config: Config, rows: Seq<Row<M>>, d: int, w: int, a: int)
    requires
        config.fits(),
        rows_of_run(config, rows),
        0 <= d < config.num_databases@.len(),
        0 <= w < config.write_delays@.len(),
        0 <= a < 3,
        forall|i: int| 0 <= i < d ==> config.num_databases@[i] != config.num_databases@[d],
        forall|i: int| 0 <= i < w ==> config.write_delays@[i] != config.write_delays@[w],
    ensures
        rows::first_about(
            rows,
            approach::approach_at(a).name(),
            config.num_databases@[d] as nat,
            config.write_delays@[w] as nat,
        ) == Some((d * config.write_delays@.len() + w) * 3 + a),
{
    let n = config.write_delays@.len() as int;
    let m = config.num_databases@.len() as int;
    let k = (d * n + w) * 3 + a;
    let name = approach::approach_at(a).name();
    let databases = config.num_databases@[d] as nat;
    let delay = config.write_delays@[w] as nat;
    run_covers_every_combination(config, d, w, a);
    rows::first_about_is_first(rows, name, databases, delay);
    assert(rows[k].is_about(name, databases, delay));
    let found = rows::first_about(rows, name, databases, delay);
    assert(found is Some);
    let j = found->0;
    assert(rows[j].is_about(name, databases, delay));
    assert(j <= k) by {
        if k < j {
            assert(!rows[k].is_about(name, databases, delay));
        }
    }
    trial_indices(j, m, n);
    let (dj, wj) = ((j / 3) / n, (j / 3) % n);
    approach::approach_names_differ(config.trials()[j].approach, approach::approach_at(a));
    assert(config.trials()[j].num_databases == config.num_databases@[dj]);
    assert(config.trials()[j].write_delay_ms == config.write_delays@[wj]);
    assert(j % 3 == a);
    assert(dj >= d);
    assert(wj >= w);
    vstd::arithmetic::div_mod::lemma_fundamental_div_mod(j / 3, n);
    assert(n * dj >= n * d && d * n == n * d) by (nonlinear_arith)
        requires
            dj >= d,
            n >= 0,
    ;
    assert(j / 3 >= d * n + w);
}

/// The expected writes are, for each database alike, as many as fit into the duration one after the
/// other; a delay of zero counts as one millisecond.
pub proof fn expected_writes_fill_the_duration(duration: nat, delay: nat, databases: nat)
    ensures
        exists|each: nat|
            #![trigger each * databases]
            expected_total(duration, delay, databases) == each * databases && (delay > 0 ==> each
                * delay <= duration * 1000 < (each + 1) * delay) && (delay == 0 ==> each == duration
                * 1000),
{
    let step = if delay > 1 {
        delay
    } else {
        1
    };
    let each = (duration * 1000) / step;
    vstd::arithmetic::div_mod::lemma_fundamental_div_mod((duration * 1000) as int, step as int);
    vstd::arithmetic::div_mod::lemma_mod_bound((duration * 1000) as int, step as int);
    assert(each * step == step * each && (each + 1) * step == step * each + step)
        by (nonlinear_arith);
    assert(expected_total(duration, delay, databases) == each * databases);
}

/// Settings fit exactly where the number of measurements, their time in seconds, the milliseconds
/// of one of them and the expected writes of each scenario are machine numbers.
pub proof fn settings_fit_where_their_numbers_do(config: Config)
    ensures
        config.fits() <==> {
            let (d, w) = (config.num_databases@.len(), config.write_delays@.len());
            &&& d * w * 3 <= usize::MAX
            &&& d * w * 3 * config.duration <= u64::MAX
            &&& d > 0 && w > 0 ==> config.duration * 1000 <= u64::MAX
            &&& forall|i: int, j: int|
                #![trigger config.num_databases@[i], config.write_delays@[j]]
                0 <= i < d && 0 <= j < w ==> (config.duration * 1000) / (if config.write_delays@[j]
                    == 0 {
                    1
                } else {
                    config.write_delays@[j] as int
                }) * config.num_databases@[i] <= u64::MAX
        },
{
    let (d, w) = (config.num_databases@.len() as int, config.write_delays@.len() as int);
    assert(d * w * 3 > 0 <==> d > 0 && w > 0) by (nonlinear_arith)
        requires
            d >= 0,
            w >= 0,
    ;
    assert forall|i: int, j: int|
        #![trigger config.num_databases@[i], config.write_delays@[j]]
        0 <= i < d && 0 <= j < w implies expected_total(
        config.duration as nat,
        config.write_delays@[j] as nat,
        config.num_databases@[i] as nat,
    ) == (config.duration * 1000) / (if config.write_delays@[j] == 0 {
        1
    } else {
        config.write_delays@[j] as int
    }) * config.num_databases@[i] by {
        if config.write_delays@[j] <= 1 {
            assert((config.duration * 1000) / 1 == config.duration * 1000);
        }
    }
}

/// The run has three measurements for each number of databases and each write delay, and they are
/// numbered from one.
pub proof fn run_has_three_for_each_scenario(config: Config)
    ensures
        config.trials().len() == config.num_databases@.len() * config.write_delays@.len() * 3,
        config.trial_count() == config.trials().len(),
{
}

} // verus!
