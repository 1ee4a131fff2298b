//! Stored results, and what the reports look up in them.

use crate::approach::Approach;
use crate::latency;
use crate::latency::Latency;
use crate::metrics;
use crate::metrics::Figure;
use crate::rows;
use crate::rows::{find_row, Row};
use vstd::prelude::*;

verus! {

/// What the reports show of one stored result.
#[derive(Debug)]
pub struct StoredMetrics {
    /// Reads per second.
    pub read_throughput_per_sec: Figure,
    /// A number by which the reads per second compare: it grows as they do and is zero where they
    /// are. There is none where they are not a number.
    pub throughput_rank: Option<i64>,
    /// The 99th percentile of the read latency.
    pub p99_read_latency: Latency,
}

/// The latencies of all rows are well formed.
pub open spec fn latencies_wf(rows: Seq<Row<StoredMetrics>>) -> bool {
    forall|i: int| 0 <= i < rows.len() ==> (#[trigger] rows[i]).metrics.p99_read_latency.wf()
}

/// The place of the first row about a scenario.
pub open spec fn source(
    rows: Seq<Row<StoredMetrics>>,
    approach: Approach,
    databases: nat,
    delay: nat,
) -> Option<int> {
    rows::first_about(rows, approach.name(), databases, delay)
}

/// The rank of the throughput at a place; that of zero where there is no place.
pub open spec fn rank_at(rows: Seq<Row<StoredMetrics>>, place: Option<int>) -> Option<int> {
    match place {
        Some(i) => match rows[i].metrics.throughput_rank {
            Some(rank) => Some(rank as int),
            None => None,
        },
        None => Some(0),
    }
}

/// Machine places as mathematical ones.
pub open spec fn place_of(place: Option<usize>) -> Option<int> {
    match place {
        Some(i) => Some(i as int),
        None => None,
    }
}

/// The reads per second of the first row about a scenario; zero where there is no such row.
pub open spec fn throughput(
    rows: Seq<Row<StoredMetrics>>,
    approach: Approach,
    databases: nat,
    delay: nat,
) -> metrics::FigureText {
    match source(rows, approach, databases, delay) {
        Some(i) => rows[i].metrics.read_throughput_per_sec@,
        None => metrics::zero_figure(),
    }
}

/// The 99th percentile of the read latency in the first row about a scenario; zero where there is
/// no such row.
pub open spec fn p99(
    rows: Seq<Row<StoredMetrics>>,
    approach: Approach,
    databases: nat,
    delay: nat,
) -> Latency {
    match source(rows, approach, databases, delay) {
        Some(i) => rows[i].metrics.p99_read_latency,
        None => latency::no_latency(),
    }
}

/// The larger of two ranks. One that is not there loses against any other.
pub open spec fn larger(a: Option<int>, b: Option<int>) -> Option<int> {
    match (a, b) {
        (Some(x), Some(y)) => Some(
            if x >= y {
                x
            } else {
                y
            },
        ),
        (Some(x), None) => Some(x),
        (None, _) => b,
    }
}

/// The reads per second of the first row about a scenario; zero where there is no such row.
pub fn get_value(
    rows: &Vec<Row<StoredMetrics>>,
    approach: Approach,
    databases: u64,
    delay: u64,
) -> (figure: Figure)
    ensures
        figure@ == throughput(rows@, approach, databases as nat, delay as nat),
{
    match find_row(rows, approach, databases, delay) {
        Some(i) => rows[i].metrics.read_throughput_per_sec.duplicate(),
        None => Figure::zero(),
    }
}

/// The 99th percentile of the read latency in the first row about a scenario; zero where there is
/// no such row.
pub fn get_latency(
    rows: &Vec<Row<StoredMetrics>>,
    approach: Approach,
    databases: u64,
    delay: u64,
) -> (latency: Latency)
    ensures
        latency == p99(rows@, approach, databases as nat, delay as nat),
        latencies_wf(rows@) ==> latency.wf(),
{
    proof {
        rows::first_about_is_first(rows@, approach.name(), databases as nat, delay as nat);
    }
    match find_row(rows, approach, databases, delay) {
        Some(i) => rows[i].metrics.p99_read_latency,
        None => Latency { ms: 0, us: 0 },
    }
}

/// The rank of the throughput at a place; that of zero where there is no place.
fn rank(rows: &Vec<Row<StoredMetrics>>, place: Option<usize>) -> (rank: Option<i64>)
    requires
        place matches Some(i) ==> i < rows@.len(),
    ensures
        match rank {
            Some(r) => rank_at(rows@, place_of(place)) == Some(r as int),
            None => rank_at(rows@, place_of(place)) is None,
        },
{
    match place {
        Some(i) => rows[i].metrics.throughput_rank,
        None => Some(0),
    }
}

/// Whether the throughput at a place is above zero.
pub open spec fn is_positive(rank: Option<int>) -> bool {
    rank matches Some(r) && r > 0
}

/// Whether direct blocking has read anything at all in a scenario.
pub fn direct_is_positive(rows: &Vec<Row<StoredMetrics>>, databases: u64, delay: u64) -> (yes: bool)
    ensures
        yes == is_positive(
            rank_at(
                rows@,
                source(rows@, Approach::DirectBlocking, databases as nat, delay as nat),
            ),
        ),
        yes <==> exists|i: int| #[trigger]
            rows::is_first_match(
                rows@,
                i,
                "direct_blocking"@,
                databases as nat,
                delay as nat,
            ) && (rows@[i].metrics.throughput_rank matches Some(above) && above > 0),
{
    proof {
        let name = Approach::DirectBlocking.name();
        let found = source(rows@, Approach::DirectBlocking, databases as nat, delay as nat);
        assert forall|i: int| #[trigger]
            rows::is_first_match(rows@, i, name, databases as nat, delay as nat) <==> found == Some(
            i,
        ) by {
            rows::search_goes_by_every_field(rows@, name, databases as nat, delay as nat, i);
        }
        if found is Some {
            assert(rows::is_first_match(rows@, found->0, name, databases as nat, delay as nat));
        }
    }
    match rank(rows, find_row(rows, Approach::DirectBlocking, databases, delay)) {
        Some(r) => r > 0,
        None => false,
    }
}

/// Of two places, the one with the larger throughput.
fn better_place(
    rows: &Vec<Row<StoredMetrics>>,
    a: Option<usize>,
    b: Option<usize>,
) -> (place: Option<usize>)
    requires
        a matches Some(i) ==> i < rows@.len(),
        b matches Some(i) ==> i < rows@.len(),
    ensures
        place == a || place == b,
        rank_at(rows@, place_of(place)) == larger(
            rank_at(rows@, place_of(a)),
            rank_at(rows@, place_of(b)),
        ),
{
    match (rank(rows, a), rank(rows, b)) {
        (Some(x), Some(y)) => if x >= y {
            a
        } else {
            b
        },
        (Some(_), None) => a,
        (None, _) => b,
    }
}

/// The row of the alternative to direct blocking that reads more in a scenario; none where that
/// alternative has no row and so counts as zero.
pub fn best_alternative(rows: &Vec<Row<StoredMetrics>>, databases: u64, delay: u64) -> (place:
    Option<usize>)
    ensures
        place matches Some(i) ==> i < rows@.len(),
        ({
            let spawn = source(rows@, Approach::SpawnBlocking, databases as nat, delay as nat);
            let tokio = source(rows@, Approach::TokioRusqlite, databases as nat, delay as nat);
            &&& place_of(place) == spawn || place_of(place) == tokio
            &&& rank_at(rows@, place_of(place)) == larger(
                rank_at(rows@, spawn),
                rank_at(rows@, tokio),
            )
            &&& rank_at(rows@, spawn) matches Some(r) ==> {
                rank_at(rows@, place_of(place)) matches Some(best) && r <= best
            }
            &&& rank_at(rows@, tokio) matches Some(r) ==> {
                rank_at(rows@, place_of(place)) matches Some(best) && r <= best
            }
        }),
{
    let spawn = find_row(rows, Approach::SpawnBlocking, databases, delay);
    let tokio = find_row(rows, Approach::TokioRusqlite, databases, delay);
    better_place(rows, spawn, tokio)
}

/// The largest rank among the approaches for one number of databases and among what came before.
pub open spec fn peak_step(
    rows: Seq<Row<StoredMetrics>>,
    before: Option<int>,
    databases: nat,
    delay: nat,
) -> Option<int> {
    let direct = rank_at(rows, source(rows, Approach::DirectBlocking, databases, delay));
    let spawn = rank_at(rows, source(rows, Approach::SpawnBlocking, databases, delay));
    let tokio = rank_at(rows, source(rows, Approach::TokioRusqlite, databases, delay));
    larger(larger(larger(before, direct), spawn), tokio)
}

/// The largest rank among all bars of a chart, and at least that of zero.
pub open spec fn peak(
    rows: Seq<Row<StoredMetrics>>,
    databases: Seq<nat>,
    delay: nat,
) -> Option<int>
    decreases databases.len(),
{
    if databases.len() == 0 {
        Some(0)
    } else {
        peak_step(rows, peak(rows, databases.drop_last(), delay), databases.last(), delay)
    }
}

/// The row with the highest bar of a chart; none where no bar is above zero.
pub fn tallest(rows: &Vec<Row<StoredMetrics>>, databases: &Vec<u64>, delay: u64) -> (place: Option<
    usize,
>)
    ensures
        place matches Some(i) ==> i < rows@.len(),
        rank_at(rows@, place_of(place)) == peak(rows@, rows::nats(databases@), delay as nat),
{
    let mut place: Option<usize> = None;
    let mut i: usize = 0;
    let ghost all = rows::nats(databases@);
    while i < databases.len()
        invariant
            i <= databases@.len(),
            all == rows::nats(databases@),
            place matches Some(k) ==> k < rows@.len(),
            rank_at(rows@, place_of(place)) == peak(rows@, all.take(i as int), delay as nat),
        decreases databases.len() - i,
    {
        assert(all.take(i + 1).drop_last() =~= all.take(i as int));
        let n = databases[i];
        let direct = find_row(rows, Approach::DirectBlocking, n, delay);
        let spawn = find_row(rows, Approach::SpawnBlocking, n, delay);
        let tokio = find_row(rows, Approach::TokioRusqlite, n, delay);
        place = better_place(rows, place, direct);
        place = better_place(rows, place, spawn);
        place = better_place(rows, place, tokio);
        i = i + 1;
    }
    assert(all.take(all.len() as int) =~= all);
    place
}

// ---------------------------------------------------------------------------
// Laws
// ---------------------------------------------------------------------------

/// No bar of a chart is higher than the one that the chart is scaled by, and that one is not below
/// zero.
pub proof fn peak_bounds_every_bar(
    rows: Seq<Row<StoredMetrics>>,
    databases: Seq<nat>,
    delay: nat,
    k: int,
    approach: Approach,
)
    requires
        0 <= k < databases.len(),
    ensures
        peak(rows, databases, delay) matches Some(top) && {
            &&& top >= 0
            &&& rank_at(rows, source(rows, approach, databases[k], delay)) matches Some(r)
                ==> r <= top
        },
    decreases databases.len(),
{
    let front = databases.drop_last();
    peak_is_not_negative(rows, front, delay);
    if k < front.len() {
        peak_bounds_every_bar(rows, front, delay, k, approach);
    }
}

/// The bar that a chart is scaled by is not below zero.
proof fn peak_is_not_negative(rows: Seq<Row<StoredMetrics>>, databases: Seq<nat>, delay: nat)
    ensures
        peak(rows, databases, delay) matches Some(top) && top >= 0,
    decreases databases.len(),
{
    if databases.len() > 0 {
        peak_is_not_negative(rows, databases.drop_last(), delay);
    }
}

/// A report shows of a scenario what the first row with its approach, number of databases and write
/// delay holds, and a zero where there is no such row.
pub proof fn first_match_is_shown(
    rows: Seq<Row<StoredMetrics>>,
    i: int,
    approach: Approach,
    databases: nat,
    delay: nat,
)
    ensures
        ({
            let shown = throughput(rows, approach, databases, delay);
            let latency = p99(rows, approach, databases, delay);
            let rank = rank_at(rows, source(rows, approach, databases, delay));
            &&& rows::is_first_match(rows, i, approach.name(), databases, delay) ==> {
                &&& shown.one_decimal == rows[i].metrics.read_throughput_per_sec.one_decimal@
                &&& shown.shortest == rows[i].metrics.read_throughput_per_sec.shortest@
                &&& latency == rows[i].metrics.p99_read_latency
                &&& rank is Some <==> rows[i].metrics.throughput_rank is Some
                &&& rank matches Some(r) ==> rows[i].metrics.throughput_rank->0 == r
            }
            &&& rows::has_no_match(rows, approach.name(), databases, delay) ==> {
                &&& shown.one_decimal == "0.0"@
                &&& shown.shortest == "0.0"@
                &&& latency.ms == 0
                &&& latency.us == 0
                &&& rank == Some(0int)
            }
        }),
{
    rows::search_goes_by_every_field(rows, approach.name(), databases, delay, i);
}

/// A throughput is above zero exactly where its rank is.
pub proof fn positive_is_above_zero(r: int)
    ensures
        is_positive(Some(r)) <==> r > 0,
        !is_positive(None),
{
}

/// The larger of two ranks is one of them and not below either; one that is not there is chosen
/// only where the other is not there either.
pub proof fn larger_is_not_below(a: Option<int>, b: Option<int>)
    ensures
        larger(a, b) == a || larger(a, b) == b,
        larger(a, b) is None <==> a is None && b is None,
        a matches Some(x) ==> (larger(a, b) matches Some(y) && x <= y),
        b matches Some(x) ==> (larger(a, b) matches Some(y) && x <= y),
{
}

/// The bar that a chart is scaled by is one of its bars, unless no bar is above zero.
pub proof fn peak_is_a_bar(rows: Seq<Row<StoredMetrics>>, databases: Seq<nat>, delay: nat)
    ensures
        peak(rows, databases, delay) == Some(0int) || exists|k: int, approach: Approach|
            0 <= k < databases.len() && #[trigger] rank_at(
                rows,
                source(rows, approach, databases[k], delay),
            ) == peak(rows, databases, delay),
    decreases databases.len(),
{
    if databases.len() > 0 {
        let front = databases.drop_last();
        let last = databases.len() - 1;
        peak_is_a_bar(rows, front, delay);
        let before = peak(rows, front, delay);
        let top = peak(rows, databases, delay);
        let direct = rank_at(rows, source(rows, Approach::DirectBlocking, databases[last], delay));
        let spawn = rank_at(rows, source(rows, Approach::SpawnBlocking, databases[last], delay));
        let tokio = rank_at(rows, source(rows, Approach::TokioRusqlite, databases[last], delay));
        assert(top == before || top == direct || top == spawn || top == tokio);
        if top == before && before != Some(0int) {
            let (k, approach) = choose|k: int, approach: Approach|
                0 <= k < front.len() && #[trigger] rank_at(
                    rows,
                    source(rows, approach, front[k], delay),
                ) == before;
            assert(rank_at(rows, source(rows, approach, databases[k], delay)) == top);
        }
    }
}

/// A place found by the machine is the place itself.
pub proof fn places_are_kept(i: usize)
    ensures
        place_of(Some(i)) == Some(i as int),
        place_of(None) is None,
{
}

/// The latencies are well formed exactly where none has a thousand microseconds or more beyond its
/// milliseconds.
pub proof fn latencies_are_well_formed_below_a_millisecond(rows: Seq<Row<StoredMetrics>>)
    ensures
        latencies_wf(rows) <==> forall|i: int|
            0 <= i < rows.len() ==> (#[trigger] rows[i]).metrics.p99_read_latency.us < 1000,
{
}

} // verus!
