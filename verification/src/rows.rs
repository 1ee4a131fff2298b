//! Result rows, the search for a scenario among them, and the axes that reports run along.

use crate::approach::Approach;
use std::collections::HashSet;
use vstd::prelude::*;

verus! {

// ---------------------------------------------------------------------------
// Rows
// ---------------------------------------------------------------------------

/// What was measured for one approach in one scenario.
#[derive(Debug)]
pub struct Row<M> {
    /// The name of the approach.
    pub approach: String,
    /// How many databases were in use.
    pub num_databases: usize,
    /// How long each write was held up, in milliseconds.
    pub write_delay_ms: u64,
    /// What was measured.
    pub metrics: M,
}

impl<M> Row<M> {
    /// Whether the row belongs to this approach, number of databases and write delay.
    pub open spec fn is_about(self, approach: Seq<char>, databases: nat, delay: nat) -> bool {
        &&& self.approach@ == approach
        &&& self.num_databases as nat == databases
        &&& self.write_delay_ms as nat == delay
    }
}

/// The place of the first row about a scenario.
pub open spec fn first_about<M>(
    rows: Seq<Row<M>>,
    approach: Seq<char>,
    databases: nat,
    delay: nat,
) -> Option<int>
    decreases rows.len(),
{
    if rows.len() == 0 {
        None
    } else {
        match first_about(rows.drop_last(), approach, databases, delay) {
            Some(i) => Some(i),
            None => if rows.last().is_about(approach, databases, delay) {
                Some(rows.len() - 1)
            } else {
                None
            },
        }
    }
}

/// The search gives the first row about the scenario, and gives none only where there is none.
pub proof fn first_about_is_first<M>(
    rows: Seq<Row<M>>,
    approach: Seq<char>,
    databases: nat,
    delay: nat,
)
    ensures
        match first_about(rows, approach, databases, delay) {
            Some(i) => {
                &&& 0 <= i < rows.len()
                &&& rows[i].is_about(approach, databases, delay)
                &&& forall|j: int|
                    0 <= j < i ==> !(#[trigger] rows[j]).is_about(approach, databases, delay)
            },
            None => forall|j: int|
                0 <= j < rows.len() ==> !(#[trigger] rows[j]).is_about(approach, databases, delay),
        },
    decreases rows.len(),
{
    if rows.len() > 0 {
        let front = rows.drop_last();
        first_about_is_first(front, approach, databases, delay);
        assert forall|j: int| 0 <= j < front.len() implies rows[j] == #[trigger] front[j] by {}
        assert(forall|j: int| 0 <= j < front.len() ==> front[j] == #[trigger] rows[j]);
    }
}

/// Finds the first row about a scenario.
pub fn find_row<M>(rows: &Vec<Row<M>>, approach: Approach, databases: u64, delay: u64) -> (place:
    Option<usize>)
    ensures
        match place {
            Some(i) => first_about(rows@, approach.name(), databases as nat, delay as nat) == Some(
                i as int,
            ) && i < rows@.len(),
            None => first_about(rows@, approach.name(), databases as nat, delay as nat) is None,
        },
        place matches Some(i) ==> is_first_match(
            rows@,
            i as int,
            approach.name(),
            databases as nat,
            delay as nat,
        ),
        place is None ==> has_no_match(rows@, approach.name(), databases as nat, delay as nat),
{
    let name = String::from_str(approach.key());
    let mut i: usize = 0;
    while i < rows.len()
        invariant
            i <= rows@.len(),
            name@ == approach.name(),
            first_about(
                rows@.take(i as int),
                approach.name(),
                databases as nat,
                delay as nat,
            ) is None,
        decreases rows.len() - i,
    {
        let ghost seen = rows@.take(i + 1);
        assert(seen.drop_last() =~= rows@.take(i as int));
        assert(seen.last() == rows@[i as int]);
        let row = &rows[i];
        if row.approach == name && row.num_databases as u64 == databases && row.write_delay_ms
            == delay {
            proof {
                first_about_in_prefix(
                    rows@,
                    approach.name(),
                    databases as nat,
                    delay as nat,
                    i + 1,
                );
                search_goes_by_every_field(
                    rows@,
                    approach.name(),
                    databases as nat,
                    delay as nat,
                    i as int,
                );
            }
            return Some(i);
        }
        i = i + 1;
    }
    assert(rows@.take(rows@.len() as int) =~= rows@);
    proof {
        search_goes_by_every_field(rows@, approach.name(), databases as nat, delay as nat, 0);
    }
    None
}

/// What the search finds among the first rows, it finds among all.
proof fn first_about_in_prefix<M>(
    rows: Seq<Row<M>>,
    approach: Seq<char>,
    databases: nat,
    delay: nat,
    n: int,
)
    requires
        0 <= n <= rows.len(),
        first_about(rows.take(n), approach, databases, delay) is Some,
    ensures
        first_about(rows, approach, databases, delay) == first_about(
            rows.take(n),
            approach,
            databases,
            delay,
        ),
    decreases rows.len(),
{
    if n == rows.len() {
        assert(rows.take(n) =~= rows);
    } else {
        assert(rows.drop_last().take(n) =~= rows.take(n));
        first_about_in_prefix(rows.drop_last(), approach, databases, delay, n);
    }
}

// ---------------------------------------------------------------------------
// Axes
// ---------------------------------------------------------------------------

/// The write delay of each row.
pub open spec fn delays_of<M>(rows: Seq<Row<M>>) -> Seq<nat> {
    Seq::new(rows.len(), |i: int| rows[i].write_delay_ms as nat)
}

/// The number of databases of each row.
pub open spec fn databases_of<M>(rows: Seq<Row<M>>) -> Seq<nat> {
    Seq::new(rows.len(), |i: int| rows[i].num_databases as nat)
}

/// Machine numbers as mathematical ones.
pub open spec fn nats(values: Seq<u64>) -> Seq<nat> {
    Seq::new(values.len(), |i: int| values[i] as nat)
}

/// Both sequences hold the same values, however often and in whatever order.
pub open spec fn same_values(a: Seq<nat>, b: Seq<nat>) -> bool {
    forall|v: nat| #![trigger a.contains(v)] #![trigger b.contains(v)] a.contains(v) <==> b.contains(v)
}

/// Each value is larger than the one before.
pub open spec fn strictly_ascending(s: Seq<nat>) -> bool {
    forall|i: int, j: int| 0 <= i < j < s.len() ==> s[i] < s[j]
}

/// `axis` holds each of `values` once, in ascending order.
pub open spec fn is_axis(axis: Seq<nat>, values: Seq<nat>) -> bool {
    strictly_ascending(axis) && same_values(axis, values)
}

/// The values, each once and in ascending order.
pub open spec fn axis_of(values: Seq<nat>) -> Seq<nat> {
    choose|axis: Seq<nat>| is_axis(axis, values)
}

/// Values have only one axis: being in ascending order without repetition determines it.
pub proof fn axis_is_unique(a: Seq<nat>, b: Seq<nat>)
    requires
        strictly_ascending(a),
        strictly_ascending(b),
        same_values(a, b),
    ensures
        a == b,
    decreases a.len(),
{
    if a.len() == 0 {
        if b.len() > 0 {
            assert(b.contains(b[0]));
        }
        assert(a =~= b);
    } else {
        let top = a[a.len() - 1];
        assert(a.contains(top));
        assert(b.contains(top));
        let j = choose|j: int| 0 <= j < b.len() && b[j] == top;
        let top_b = b[b.len() - 1];
        assert(b.contains(top_b));
        assert(a.contains(top_b));
        let i = choose|i: int| 0 <= i < a.len() && a[i] == top_b;
        assert(top == top_b);
        let (fa, fb) = (a.drop_last(), b.drop_last());
        assert forall|v: nat| fa.contains(v) <==> fb.contains(v) by {
            if fa.contains(v) {
                let k = choose|k: int| 0 <= k < fa.len() && fa[k] == v;
                assert(a[k] == v);
                assert(a.contains(v));
                let m = choose|m: int| 0 <= m < b.len() && b[m] == v;
                assert(fb[m] == v);
            }
            if fb.contains(v) {
                let k = choose|k: int| 0 <= k < fb.len() && fb[k] == v;
                assert(b[k] == v);
                assert(b.contains(v));
                let m = choose|m: int| 0 <= m < a.len() && a[m] == v;
                assert(fa[m] == v);
            }
        }
        axis_is_unique(fa, fb);
        assert(a =~= fa.push(top));
        assert(b =~= fb.push(top));
    }
}

/// An axis with one more value.
spec fn with_value(axis: Seq<nat>, value: nat) -> Seq<nat>
    decreases axis.len(),
{
    if axis.len() == 0 || axis.last() < value {
        axis.push(value)
    } else if axis.last() == value {
        axis
    } else {
        with_value(axis.drop_last(), value).push(axis.last())
    }
}

/// An axis with one more value is an axis of the values with that value.
proof fn with_value_facts(axis: Seq<nat>, value: nat)
    requires
        strictly_ascending(axis),
    ensures
        strictly_ascending(with_value(axis, value)),
        forall|v: nat| #[trigger]
            with_value(axis, value).contains(v) <==> axis.contains(v) || v == value,
    decreases axis.len(),
{
    let longer = with_value(axis, value);
    if axis.len() == 0 || axis.last() < value {
        assert forall|v: nat| #[trigger] longer.contains(v) <==> axis.contains(v) || v == value by {
            if axis.contains(v) {
                let k = choose|k: int| 0 <= k < axis.len() && axis[k] == v;
                assert(longer[k] == v);
            }
            assert(longer[axis.len() as int] == value);
        }
    } else if axis.last() == value {
        assert(axis[axis.len() - 1] == value);
    } else {
        let front = axis.drop_last();
        let top = axis.last();
        let inner = with_value(front, value);
        with_value_facts(front, value);
        assert forall|i: int| 0 <= i < inner.len() implies inner[i] < top by {
            assert(inner.contains(inner[i]));
            if front.contains(inner[i]) {
                let k = choose|k: int| 0 <= k < front.len() && front[k] == inner[i];
                assert(axis[k] < axis[axis.len() - 1]);
            }
        }
        assert forall|v: nat| #[trigger] longer.contains(v) <==> axis.contains(v) || v == value by {
            if longer.contains(v) {
                let k = choose|k: int| 0 <= k < longer.len() && longer[k] == v;
                if k < inner.len() {
                    assert(inner[k] == v);
                    assert(inner.contains(v));
                    if front.contains(v) {
                        let m = choose|m: int| 0 <= m < front.len() && front[m] == v;
                        assert(axis[m] == v);
                    }
                } else {
                    assert(axis[axis.len() - 1] == v);
                }
            }
            if axis.contains(v) || v == value {
                if axis.contains(v) {
                    let m = choose|m: int| 0 <= m < axis.len() && axis[m] == v;
                    if m < front.len() {
                        assert(front[m] == v);
                        assert(front.contains(v));
                    }
                }
                if v == top {
                    assert(longer[inner.len() as int] == v);
                } else {
                    assert(inner.contains(v));
                    let k = choose|k: int| 0 <= k < inner.len() && inner[k] == v;
                    assert(longer[k] == v);
                }
            }
        }
    }
}

/// All values have an axis.
proof fn axis_exists(values: Seq<nat>) -> (axis: Seq<nat>)
    ensures
        is_axis(axis, values),
    decreases values.len(),
{
    if values.len() == 0 {
        assert(is_axis(values, values));
        values
    } else {
        let front = values.drop_last();
        let inner = axis_exists(front);
        let axis = with_value(inner, values.last());
        with_value_facts(inner, values.last());
        assert forall|v: nat| axis.contains(v) <==> values.contains(v) by {
            assert(inner.contains(v) <==> front.contains(v));
            if front.contains(v) {
                let k = choose|k: int| 0 <= k < front.len() && front[k] == v;
                assert(values[k] == v);
            }
            if values.contains(v) {
                let k = choose|k: int| 0 <= k < values.len() && values[k] == v;
                if k < front.len() {
                    assert(front[k] == v);
                }
            }
            assert(values[values.len() - 1] == values.last());
        }
        axis
    }
}

/// Whatever the values are, their axis holds each of them once and nothing else, in ascending
/// order.
pub proof fn axis_holds_each_value_once(values: Seq<nat>)
    ensures
        is_axis(axis_of(values), values),
{
    let axis = axis_exists(values);
    assert(is_axis(axis, values));
}

/// Adds a value to an axis that may hold it already.
fn insert_into_axis(axis: &mut Vec<u64>, value: u64)
    requires
        strictly_ascending(nats(old(axis)@)),
    ensures
        strictly_ascending(nats(final(axis)@)),
        forall|v: nat|
            #![trigger nats(final(axis)@).contains(v)]
            nats(final(axis)@).contains(v) <==> nats(old(axis)@).contains(v) || v == value,
{
    let mut i: usize = 0;
    while i < axis.len() && axis[i] < value
        invariant
            i <= axis@.len(),
            forall|k: int| 0 <= k < i ==> axis@[k] < value,
        decreases axis.len() - i,
    {
        i = i + 1;
    }
    let ghost before = axis@;
    if i < axis.len() && axis[i] == value {
        assert(nats(before)[i as int] == value);
        return ;
    }
    proof {
        assert forall|k: int| i <= k < before.len() implies before[k] > value by {
            assert(nats(before)[k] == before[k]);
            assert(nats(before)[i as int] == before[i as int]);
        }
    }
    axis.insert(i, value);
    proof {
        let (old_axis, new_axis) = (nats(before), nats(axis@));
        assert forall|a: int, b: int| 0 <= a < b < new_axis.len() implies new_axis[a]
            < new_axis[b] by {
            let x = if a < i { a } else { a - 1 };
            let y = if b < i { b } else { b - 1 };
            if a != i && b != i {
                assert(old_axis[x] < old_axis[y]);
            }
        }
        assert forall|v: nat| new_axis.contains(v) <==> old_axis.contains(v) || v == value by {
            if new_axis.contains(v) {
                let k = choose|k: int| 0 <= k < new_axis.len() && new_axis[k] == v;
                if k < i {
                    assert(old_axis[k] == v);
                } else if k > i {
                    assert(old_axis[k - 1] == v);
                }
            }
            if old_axis.contains(v) {
                let k = choose|k: int| 0 <= k < old_axis.len() && old_axis[k] == v;
                if k < i {
                    assert(new_axis[k] == v);
                } else {
                    assert(new_axis[k + 1] == v);
                }
            }
            if v == value {
                assert(new_axis[i as int] == v);
            }
        }
    }
}

/// The values, each once and in ascending order.
fn sort_and_dedup(values: &Vec<u64>) -> (axis: Vec<u64>)
    ensures
        is_axis(nats(axis@), nats(values@)),
        nats(axis@) == axis_of(nats(values@)),
{
    let mut axis: Vec<u64> = Vec::new();
    let mut i: usize = 0;
    assert(nats(values@).take(0) =~= nats(axis@));
    while i < values.len()
        invariant
            i <= values@.len(),
            is_axis(nats(axis@), nats(values@).take(i as int)),
        decreases values.len() - i,
    {
        let ghost before = nats(axis@);
        insert_into_axis(&mut axis, values[i]);
        proof {
            let (seen, more) = (nats(values@).take(i as int), nats(values@).take(i + 1));
            assert forall|v: nat| nats(axis@).contains(v) <==> more.contains(v) by {
                if more.contains(v) {
                    let k = choose|k: int| 0 <= k < more.len() && more[k] == v;
                    if k < i {
                        assert(seen[k] == v);
                        assert(seen.contains(v));
                    }
                }
                if seen.contains(v) {
                    let k = choose|k: int| 0 <= k < seen.len() && seen[k] == v;
                    assert(more[k] == v);
                }
                assert(more[i as int] == values@[i as int]);
                assert(before.contains(v) <==> seen.contains(v));
            }
        }
        i = i + 1;
    }
    proof {
        assert(nats(values@).take(values@.len() as int) =~= nats(values@));
        let chosen = axis_of(nats(values@));
        assert(is_axis(chosen, nats(values@)));
        assert(same_values(nats(axis@), chosen));
        axis_is_unique(nats(axis@), chosen);
    }
    axis
}

/// The write delays that occur, each once and in ascending order.
pub fn ascending_delays<M>(rows: &Vec<Row<M>>) -> (axis: Vec<u64>)
    ensures
        is_axis(nats(axis@), delays_of(rows@)),
        nats(axis@) == axis_of(delays_of(rows@)),
        forall|v: u64| #[trigger] axis@.contains(v) <==> delay_occurs(rows@, v as nat),
        forall|a: int, b: int| 0 <= a < b < axis@.len() ==> axis@[a] < axis@[b],
{
    let values = delay_column(rows);
    let axis = sort_and_dedup(&values);
    proof {
        assert forall|v: u64| #[trigger] axis@.contains(v) <==> delay_occurs(rows@, v as nat) by {
            value_occurs_in_rows(axis@, rows@, v);
        }
        assert forall|a: int, b: int| 0 <= a < b < axis@.len() implies axis@[a] < axis@[b] by {
            assert(nats(axis@)[a] < nats(axis@)[b]);
        }
    }
    axis
}

/// The numbers of databases that occur, each once and in ascending order.
pub fn ascending_databases<M>(rows: &Vec<Row<M>>) -> (axis: Vec<u64>)
    ensures
        is_axis(nats(axis@), databases_of(rows@)),
        nats(axis@) == axis_of(databases_of(rows@)),
        forall|v: u64| #[trigger] axis@.contains(v) <==> databases_occur(rows@, v as nat),
        forall|a: int, b: int| 0 <= a < b < axis@.len() ==> axis@[a] < axis@[b],
{
    let values = database_column(rows);
    let axis = sort_and_dedup(&values);
    proof {
        assert forall|v: u64| #[trigger] axis@.contains(v) <==> databases_occur(rows@, v as nat) by {
            value_occurs_in_rows(axis@, rows@, v);
        }
        assert forall|a: int, b: int| 0 <= a < b < axis@.len() implies axis@[a] < axis@[b] by {
            assert(nats(axis@)[a] < nats(axis@)[b]);
        }
    }
    axis
}

/// The write delay of each row.
fn delay_column<M>(rows: &Vec<Row<M>>) -> (values: Vec<u64>)
    ensures
        nats(values@) == delays_of(rows@),
{
    let mut values: Vec<u64> = Vec::new();
    let mut i: usize = 0;
    while i < rows.len()
        invariant
            i <= rows@.len(),
            values@.len() == i,
            forall|k: int| 0 <= k < i ==> values@[k] == rows@[k].write_delay_ms,
        decreases rows.len() - i,
    {
        values.push(rows[i].write_delay_ms);
        i = i + 1;
    }
    assert(nats(values@) =~= delays_of(rows@));
    values
}

/// The number of databases of each row.
fn database_column<M>(rows: &Vec<Row<M>>) -> (values: Vec<u64>)
    ensures
        nats(values@) == databases_of(rows@),
{
    let mut values: Vec<u64> = Vec::new();
    let mut i: usize = 0;
    while i < rows.len()
        invariant
            i <= rows@.len(),
            values@.len() == i,
            forall|k: int| 0 <= k < i ==> values@[k] == rows@[k].num_databases,
        decreases rows.len() - i,
    {
        values.push(rows[i].num_databases as u64);
        i = i + 1;
    }
    assert(nats(values@) =~= databases_of(rows@));
    values
}

/// `order` holds each of `values` once, in some order.
pub open spec fn is_order_of(order: Seq<nat>, values: Seq<nat>) -> bool {
    order.no_duplicates() && same_values(order, values)
}

/// The values, each once, in the order in which a hash set is walked.
fn dedup_by_hash(values: &Vec<u64>) -> (order: Vec<u64>)
    ensures
        is_order_of(nats(order@), nats(values@)),
{
    broadcast use vstd::std_specs::hash::group_hash_axioms;

    let mut set: HashSet<u64> = HashSet::new();
    let mut i: usize = 0;
    while i < values.len()
        invariant
            i <= values@.len(),
            forall|v: u64| #[trigger] set@.contains(v) <==> values@.take(i as int).contains(v),
        decreases values.len() - i,
    {
        let ghost (seen, more) = (values@.take(i as int), values@.take(i + 1));
        set.insert(values[i]);
        proof {
            assert forall|v: u64| #[trigger] set@.contains(v) <==> more.contains(v) by {
                if more.contains(v) {
                    let k = choose|k: int| 0 <= k < more.len() && more[k] == v;
                    if k < i {
                        assert(seen[k] == v);
                    }
                }
                if seen.contains(v) {
                    let k = choose|k: int| 0 <= k < seen.len() && seen[k] == v;
                    assert(more[k] == v);
                }
                assert(more[i as int] == values@[i as int]);
            }
        }
        i = i + 1;
    }
    assert(values@.take(values@.len() as int) =~= values@);
    let mut order: Vec<u64> = Vec::new();
    for value in it: set.iter()
        invariant
            it.seq().unref().to_set() == set@,
            it.seq().no_duplicates(),
            order@ =~= it.seq().unref().take(it.index() as int),
            it.index() == it.seq().len() ==> order@ =~= it.seq().unref(),
    {
        order.push(*value);
    }
    assert(order@.to_set() == set@);
    assert(order@.no_duplicates());
    proof {
        let (from, to) = (nats(values@), nats(order@));
        assert forall|v: nat| to.contains(v) <==> from.contains(v) by {
            if to.contains(v) {
                let k = choose|k: int| 0 <= k < to.len() && to[k] == v;
                assert(order@.to_set().contains(order@[k]));
                assert(values@.contains(order@[k]));
                let m = choose|m: int| 0 <= m < values@.len() && values@[m] == order@[k];
                assert(from[m] == v);
            }
            if from.contains(v) {
                let k = choose|k: int| 0 <= k < from.len() && from[k] == v;
                assert(values@.contains(values@[k]));
                assert(order@.to_set().contains(values@[k]));
                let m = choose|m: int| 0 <= m < order@.len() && order@[m] == values@[k];
                assert(to[m] == v);
            }
        }
    }
    order
}

/// The write delays that occur, each once, in no particular order.
pub fn distinct_delays<M>(rows: &Vec<Row<M>>) -> (order: Vec<u64>)
    ensures
        is_order_of(nats(order@), delays_of(rows@)),
        forall|v: u64| #[trigger] order@.contains(v) <==> delay_occurs(rows@, v as nat),
        forall|a: int, b: int| 0 <= a < b < order@.len() ==> order@[a] != order@[b],
{
    let values = delay_column(rows);
    let order = dedup_by_hash(&values);
    proof {
        assert forall|v: u64| #[trigger] order@.contains(v) <==> delay_occurs(rows@, v as nat) by {
            value_occurs_in_rows(order@, rows@, v);
        }
        assert forall|a: int, b: int| 0 <= a < b < order@.len() implies order@[a] != order@[b] by {
            assert(nats(order@)[a] != nats(order@)[b]);
        }
    }
    order
}

/// The numbers of databases that occur, each once, in no particular order.
pub fn distinct_databases<M>(rows: &Vec<Row<M>>) -> (order: Vec<u64>)
    ensures
        is_order_of(nats(order@), databases_of(rows@)),
        forall|v: u64| #[trigger] order@.contains(v) <==> databases_occur(rows@, v as nat),
        forall|a: int, b: int| 0 <= a < b < order@.len() ==> order@[a] != order@[b],
{
    let values = database_column(rows);
    let order = dedup_by_hash(&values);
    proof {
        assert forall|v: u64| #[trigger] order@.contains(v) <==> databases_occur(rows@, v as nat) by {
            value_occurs_in_rows(order@, rows@, v);
        }
        assert forall|a: int, b: int| 0 <= a < b < order@.len() implies order@[a] != order@[b] by {
            assert(nats(order@)[a] != nats(order@)[b]);
        }
    }
    order
}

/// Some row has this write delay.
pub open spec fn delay_occurs<M>(rows: Seq<Row<M>>, delay: nat) -> bool {
    exists|i: int| 0 <= i < rows.len() && (#[trigger] rows[i]).write_delay_ms == delay
}

/// Some row has this number of databases.
pub open spec fn databases_occur<M>(rows: Seq<Row<M>>, databases: nat) -> bool {
    exists|i: int| 0 <= i < rows.len() && (#[trigger] rows[i]).num_databases == databases
}

/// A column holds exactly the values that occur in the rows.
proof fn columns_hold_what_occurs<M>(rows: Seq<Row<M>>, v: nat)
    ensures
        delays_of(rows).contains(v) <==> delay_occurs(rows, v),
        databases_of(rows).contains(v) <==> databases_occur(rows, v),
{
    let (a, b) = (delays_of(rows), databases_of(rows));
    if a.contains(v) {
        let i = choose|i: int| 0 <= i < a.len() && a[i] == v;
        assert(rows[i].write_delay_ms == v);
    }
    if b.contains(v) {
        let i = choose|i: int| 0 <= i < b.len() && b[i] == v;
        assert(rows[i].num_databases == v);
    }
    if delay_occurs(rows, v) {
        let i = choose|i: int| 0 <= i < rows.len() && (#[trigger] rows[i]).write_delay_ms == v;
        assert(a[i] == v);
    }
    if databases_occur(rows, v) {
        let i = choose|i: int| 0 <= i < rows.len() && (#[trigger] rows[i]).num_databases == v;
        assert(b[i] == v);
    }
}

/// Machine numbers that hold the values of a column hold what occurs in the rows.
proof fn value_occurs_in_rows<M>(values: Seq<u64>, rows: Seq<Row<M>>, v: u64)
    ensures
        same_values(nats(values), delays_of(rows)) ==> (values.contains(v) <==> delay_occurs(
            rows,
            v as nat,
        )),
        same_values(nats(values), databases_of(rows)) ==> (values.contains(v) <==> databases_occur(
            rows,
            v as nat,
        )),
{
    columns_hold_what_occurs(rows, v as nat);
    assert(values.contains(v) <==> nats(values).contains(v as nat)) by {
        if values.contains(v) {
            let k = choose|k: int| 0 <= k < values.len() && values[k] == v;
            assert(nats(values)[k] == v);
        }
        if nats(values).contains(v as nat) {
            let k = choose|k: int| 0 <= k < nats(values).len() && nats(values)[k] == v;
            assert(values[k] == v);
        }
    }
}

// ---------------------------------------------------------------------------
// Laws
// ---------------------------------------------------------------------------

/// The row at place `i` has this approach, number of databases and write delay, and no row before
/// it has all three.
pub open spec fn is_first_match<M>(
    rows: Seq<Row<M>>,
    i: int,
    approach: Seq<char>,
    databases: nat,
    delay: nat,
) -> bool {
    &&& 0 <= i < rows.len()
    &&& rows[i].approach@ == approach
    &&& rows[i].num_databases == databases
    &&& rows[i].write_delay_ms == delay
    &&& forall|j: int|
        0 <= j < i && (#[trigger] rows[j]).approach@ == approach && rows[j].num_databases
            == databases ==> rows[j].write_delay_ms != delay
}

/// No row has this approach, number of databases and write delay.
pub open spec fn has_no_match<M>(
    rows: Seq<Row<M>>,
    approach: Seq<char>,
    databases: nat,
    delay: nat,
) -> bool {
    forall|j: int|
        0 <= j < rows.len() && (#[trigger] rows[j]).approach@ == approach && rows[j].num_databases
            == databases ==> rows[j].write_delay_ms != delay
}

/// The search goes by approach, number of databases and write delay, and by nothing else.
pub proof fn search_goes_by_every_field<M>(
    rows: Seq<Row<M>>,
    approach: Seq<char>,
    databases: nat,
    delay: nat,
    i: int,
)
    ensures
        is_first_match(rows, i, approach, databases, delay) <==> first_about(
            rows,
            approach,
            databases,
            delay,
        ) == Some(i),
        has_no_match(rows, approach, databases, delay) <==> first_about(
            rows,
            approach,
            databases,
            delay,
        ) is None,
{
    first_about_is_first(rows, approach, databases, delay);
    let found = first_about(rows, approach, databases, delay);
    if is_first_match(rows, i, approach, databases, delay) {
        assert(rows[i].is_about(approach, databases, delay));
        assert(found is Some);
        let k = found->0;
        assert(rows[k].is_about(approach, databases, delay));
        if k < i {
            assert(rows[k].write_delay_ms != delay);
        }
    }
    if found is Some {
        assert(rows[found->0].is_about(approach, databases, delay));
    }
}

/// The axes of a report hold the write delays and the numbers of databases that occur in the rows
/// and nothing else, each once and smaller ones first.
pub proof fn axes_hold_what_occurs<M>(rows: Seq<Row<M>>, v: nat, k: int)
    ensures
        ({
            let delays = axis_of(delays_of(rows));
            let databases = axis_of(databases_of(rows));
            &&& delays.contains(v) <==> delay_occurs(rows, v)
            &&& databases.contains(v) <==> databases_occur(rows, v)
            &&& 0 < k < delays.len() ==> delays[k - 1] < delays[k]
            &&& 0 < k < databases.len() ==> databases[k - 1] < databases[k]
        }),
{
    axis_holds_each_value_once(delays_of(rows));
    axis_holds_each_value_once(databases_of(rows));
    columns_hold_what_occurs(rows, v);
}

/// Machine numbers stand for the mathematical ones of the same value, in the same order.
pub proof fn nats_keep_every_value(values: Seq<u64>, i: int)
    ensures
        nats(values).len() == values.len(),
        0 <= i < values.len() ==> nats(values)[i] == values[i],
{
}

/// Values in some order are those that occur in the rows and nothing else, each once.
pub proof fn orders_hold_what_occurs<M>(
    rows: Seq<Row<M>>,
    order: Seq<nat>,
    v: nat,
    i: int,
    j: int,
)
    ensures
        is_order_of(order, delays_of(rows)) ==> (order.contains(v) <==> delay_occurs(rows, v)),
        is_order_of(order, databases_of(rows)) ==> (order.contains(v) <==> databases_occur(
            rows,
            v,
        )),
        is_order_of(order, delays_of(rows)) || is_order_of(order, databases_of(rows)) ==> (0 <= i
            < j < order.len() ==> order[i] != order[j]),
{
    columns_hold_what_occurs(rows, v);
}

} // verus!
