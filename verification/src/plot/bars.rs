//! Bar charts in plain text.

use crate::approach::Approach;
use crate::delay;
use crate::plot::stored;
use crate::plot::stored::StoredMetrics;
use crate::rows;
use crate::rows::Row;
use crate::text;
use vstd::prelude::*;

verus! {

/// The name of the file that holds the charts.
pub const FILE_NAME: &'static str = "ascii_regenerated.txt";

/// The title.
pub const TITLE: &'static str = "SQLite Async Benchmark - ASCII Charts\n======================================\n";

/// How long the longest bar of a chart is.
pub const BAR_WIDTH: usize = 50;

/// The lengths of the bars for one number of databases.
#[derive(Clone, Copy, Debug, PartialEq, Eq, Structural)]
pub struct Bars {
    /// The bar of direct blocking.
    pub direct: usize,
    /// The bar of the blocking threads.
    pub spawn: usize,
    /// The bar of the thread for each database.
    pub tokio: usize,
}

/// The bars for one number of databases.
pub open spec fn group(
    rows: Seq<Row<StoredMetrics>>,
    databases: nat,
    delay: nat,
    bars: Bars,
) -> Seq<char> {
    let direct = stored::throughput(rows, Approach::DirectBlocking, databases, delay);
    let spawn = stored::throughput(rows, Approach::SpawnBlocking, databases, delay);
    let tokio = stored::throughput(rows, Approach::TokioRusqlite, databases, delay);
    text::decimal(databases) + "  databases:\n  Direct:  |"@ + text::repeated(
        "█"@,
        bars.direct as nat,
    ) + "| "@ + direct.one_decimal + "\n  Spawn:   |"@ + text::repeated("▓"@, bars.spawn as nat)
        + "| "@ + spawn.one_decimal + "\n  Tokio:   |"@ + text::repeated("░"@, bars.tokio as nat)
        + "| "@ + tokio.one_decimal + "\n\n"@
}

/// The bars for all numbers of databases in turn.
pub open spec fn groups(
    rows: Seq<Row<StoredMetrics>>,
    databases: Seq<nat>,
    delay: nat,
    bars: Seq<Bars>,
) -> Seq<char>
    decreases databases.len(),
{
    if databases.len() == 0 {
        Seq::empty()
    } else {
        groups(rows, databases.drop_last(), delay, bars) + group(
            rows,
            databases.last(),
            delay,
            bars[databases.len() - 1],
        )
    }
}

/// The chart of one write delay.
pub open spec fn chart(
    rows: Seq<Row<StoredMetrics>>,
    databases: Seq<nat>,
    delay: nat,
    bars: Seq<Bars>,
) -> Seq<char> {
    "\n\n=== Read Throughput (req/sec) - "@ + delay::delay_name(delay) + " ===\n\n"@ + groups(
        rows,
        databases,
        delay,
        bars,
    )
}

/// The charts of all write delays in turn, each with its own bars.
pub open spec fn charts(
    rows: Seq<Row<StoredMetrics>>,
    delays: Seq<nat>,
    databases: Seq<nat>,
    bars: Seq<Vec<Bars>>,
) -> Seq<char>
    decreases delays.len(),
{
    if delays.len() == 0 {
        Seq::empty()
    } else {
        charts(rows, delays.drop_last(), databases, bars) + chart(
            rows,
            databases,
            delays.last(),
            bars[delays.len() - 1]@,
        )
    }
}

/// There are bars for each write delay and each number of databases.
pub open spec fn bars_complete(bars: Seq<Vec<Bars>>, delays: nat, databases: nat) -> bool {
    &&& bars.len() == delays
    &&& forall|d: int| 0 <= d < bars.len() ==> (#[trigger] bars[d])@.len() == databases
}

/// Writes the bars for one number of databases.
fn write_group(rows: &Vec<Row<StoredMetrics>>, databases: u64, delay: u64, bars: Bars) -> (s:
    String)
    ensures
        s@ == group(rows@, databases as nat, delay as nat, bars),
{
    let direct = stored::get_value(rows, Approach::DirectBlocking, databases, delay);
    let spawn = stored::get_value(rows, Approach::SpawnBlocking, databases, delay);
    let tokio = stored::get_value(rows, Approach::TokioRusqlite, databases, delay);
    let direct_bar = text::repeat_text("█", bars.direct);
    let spawn_bar = text::repeat_text("▓", bars.spawn);
    let tokio_bar = text::repeat_text("░", bars.tokio);
    let mut s = text::decimal_text(databases);
    s.append("  databases:\n  Direct:  |");
    s.append(direct_bar.as_str());
    s.append("| ");
    s.append(direct.one_decimal.as_str());
    s.append("\n  Spawn:   |");
    s.append(spawn_bar.as_str());
    s.append("| ");
    s.append(spawn.one_decimal.as_str());
    s.append("\n  Tokio:   |");
    s.append(tokio_bar.as_str());
    s.append("| ");
    s.append(tokio.one_decimal.as_str());
    s.append("\n\n");
    s
}

/// Writes the chart of one write delay.
fn write_chart(
    rows: &Vec<Row<StoredMetrics>>,
    databases: &Vec<u64>,
    delay: u64,
    bars: &Vec<Bars>,
) -> (s: String)
    requires
        bars@.len() == databases@.len(),
    ensures
        s@ == chart(rows@, rows::nats(databases@), delay as nat, bars@),
{
    let name = delay::format_delay(delay);
    let mut inner = String::new();
    let mut i: usize = 0;
    let ghost all = rows::nats(databases@);
    while i < databases.len()
        invariant
            i <= databases@.len(),
            bars@.len() == databases@.len(),
            all == rows::nats(databases@),
            inner@ == groups(rows@, all.take(i as int), delay as nat, bars@),
        decreases databases.len() - i,
    {
        assert(all.take(i + 1).drop_last() =~= all.take(i as int));
        let group = write_group(rows, databases[i], delay, bars[i]);
        inner.append(group.as_str());
        i = i + 1;
    }
    assert(all.take(all.len() as int) =~= all);
    let mut s = String::from_str("\n\n=== Read Throughput (req/sec) - ");
    s.append(name.as_str());
    s.append(" ===\n\n");
    s.append(inner.as_str());
    s
}

/// The bar charts: one for each write delay, with a bar of each approach for each number of
/// databases. `bars` holds the lengths.
pub fn generate_ascii_charts(
    rows: &Vec<Row<StoredMetrics>>,
    delays: &Vec<u64>,
    databases: &Vec<u64>,
    bars: &Vec<Vec<Bars>>,
) -> (s: String)
    requires
        bars_complete(bars@, delays@.len(), databases@.len()),
    ensures
        s@ == TITLE@ + charts(rows@, rows::nats(delays@), rows::nats(databases@), bars@),
{
    let mut inner = String::new();
    let mut i: usize = 0;
    let ghost all = rows::nats(delays@);
    while i < delays.len()
        invariant
            i <= delays@.len(),
            bars_complete(bars@, delays@.len(), databases@.len()),
            all == rows::nats(delays@),
            inner@ == charts(rows@, all.take(i as int), rows::nats(databases@), bars@),
        decreases delays.len() - i,
    {
        assert(all.take(i + 1).drop_last() =~= all.take(i as int));
        let chart = write_chart(rows, databases, delays[i], &bars[i]);
        inner.append(chart.as_str());
        i = i + 1;
    }
    assert(all.take(all.len() as int) =~= all);
    let mut s = String::from_str(TITLE);
    s.append(inner.as_str());
    s
}

// ---------------------------------------------------------------------------
// Laws
// ---------------------------------------------------------------------------

/// Each number of databases has its bars in a chart.
proof fn groups_hold_group(
    rows: Seq<Row<StoredMetrics>>,
    databases: Seq<nat>,
    delay: nat,
    bars: Seq<Bars>,
    d: int,
)
    requires
        0 <= d < databases.len(),
    ensures
        text::occurs_in(
            group(rows, databases[d], delay, bars[d]),
            groups(rows, databases, delay, bars),
        ),
    decreases databases.len(),
{
    let own = group(rows, databases[d], delay, bars[d]);
    let front = databases.drop_last();
    let head = groups(rows, front, delay, bars);
    let tail = group(rows, databases.last(), delay, bars[databases.len() - 1]);
    if d == front.len() {
        text::occurs_between(head, own, Seq::empty());
    } else {
        groups_hold_group(rows, front, delay, bars, d);
        text::occurs_between(Seq::empty(), head, tail);
        text::occurs_through(own, head, head + tail);
    }
}

/// Each write delay has its chart.
proof fn charts_hold_chart(
    rows: Seq<Row<StoredMetrics>>,
    delays: Seq<nat>,
    databases: Seq<nat>,
    bars: Seq<Vec<Bars>>,
    w: int,
)
    requires
        0 <= w < delays.len(),
    ensures
        text::occurs_in(
            chart(rows, databases, delays[w], bars[w]@),
            charts(rows, delays, databases, bars),
        ),
    decreases delays.len(),
{
    let own = chart(rows, databases, delays[w], bars[w]@);
    let front = delays.drop_last();
    let head = charts(rows, front, databases, bars);
    let tail = chart(rows, databases, delays.last(), bars[delays.len() - 1]@);
    if w == front.len() {
        text::occurs_between(head, own, Seq::empty());
    } else {
        charts_hold_chart(rows, front, databases, bars, w);
        text::occurs_between(Seq::empty(), head, tail);
        text::occurs_through(own, head, head + tail);
    }
}

/// The charts show every scenario along their axes: the scenario's own bars occur in them.
pub proof fn charts_show_every_scenario(
    rows: Seq<Row<StoredMetrics>>,
    delays: Seq<nat>,
    databases: Seq<nat>,
    bars: Seq<Vec<Bars>>,
    w: int,
    d: int,
)
    requires
        bars_complete(bars, delays.len(), databases.len()),
        0 <= w < delays.len(),
        0 <= d < databases.len(),
    ensures
        text::occurs_in(
            group(rows, databases[d], delays[w], bars[w]@[d]),
            TITLE@ + charts(rows, delays, databases, bars),
        ),
{
    let own = group(rows, databases[d], delays[w], bars[w]@[d]);
    let inner = groups(rows, databases, delays[w], bars[w]@);
    let whole = chart(rows, databases, delays[w], bars[w]@);
    let all = charts(rows, delays, databases, bars);
    groups_hold_group(rows, databases, delays[w], bars[w]@, d);
    text::occurs_between(
        "\n\n=== Read Throughput (req/sec) - "@ + delay::delay_name(delays[w]) + " ===\n\n"@,
        inner,
        Seq::empty(),
    );
    text::occurs_through(own, inner, whole);
    charts_hold_chart(rows, delays, databases, bars, w);
    text::occurs_through(own, whole, all);
    text::occurs_between(TITLE@, all, Seq::empty());
    text::occurs_through(own, all, TITLE@ + all);
}

/// The bars for one number of databases: for each approach a bar of its length and its reads per
/// second.
pub proof fn group_shows_each_bar(
    rows: Seq<Row<StoredMetrics>>,
    databases: nat,
    delay: nat,
    bars: Bars,
)
    ensures
        ({
            let whole = group(rows, databases, delay, bars);
            let number = text::decimal(databases);
            let direct_bar = text::repeated("█"@, bars.direct as nat);
            let direct = stored::throughput(
                rows,
                Approach::DirectBlocking,
                databases,
                delay,
            ).one_decimal;
            let spawn_bar = text::repeated("▓"@, bars.spawn as nat);
            let spawn = stored::throughput(
                rows,
                Approach::SpawnBlocking,
                databases,
                delay,
            ).one_decimal;
            let tokio_bar = text::repeated("░"@, bars.tokio as nat);
            let tokio = stored::throughput(
                rows,
                Approach::TokioRusqlite,
                databases,
                delay,
            ).one_decimal;
            &&& text::occurs_in(number + "  databases:\n  Direct:  |"@, whole)
            &&& text::occurs_in("  databases:\n  Direct:  |"@ + direct_bar + "| "@, whole)
            &&& text::occurs_in("| "@ + direct + "\n  Spawn:   |"@, whole)
            &&& text::occurs_in("\n  Spawn:   |"@ + spawn_bar + "| "@, whole)
            &&& text::occurs_in("| "@ + spawn + "\n  Tokio:   |"@, whole)
            &&& text::occurs_in("\n  Tokio:   |"@ + tokio_bar + "| "@, whole)
            &&& text::occurs_in("| "@ + tokio + "\n\n"@, whole)
            &&& whole.len()
                == number.len() + "  databases:\n  Direct:  |"@.len() + direct_bar.len()
                    + "| "@.len() + direct.len() + "\n  Spawn:   |"@.len() + spawn_bar.len()
                    + "| "@.len() + spawn.len() + "\n  Tokio:   |"@.len() + tokio_bar.len()
                    + "| "@.len() + tokio.len() + "\n\n"@.len()
        }),
{
    let whole = group(rows, databases, delay, bars);
    let number = text::decimal(databases);
    let direct_bar = text::repeated("█"@, bars.direct as nat);
    let direct = stored::throughput(rows, Approach::DirectBlocking, databases, delay).one_decimal;
    let spawn_bar = text::repeated("▓"@, bars.spawn as nat);
    let spawn = stored::throughput(rows, Approach::SpawnBlocking, databases, delay).one_decimal;
    let tokio_bar = text::repeated("░"@, bars.tokio as nat);
    let tokio = stored::throughput(rows, Approach::TokioRusqlite, databases, delay).one_decimal;
    let t0 = number;
    let t1 = t0 + "  databases:\n  Direct:  |"@;
    let t2 = t1 + direct_bar;
    let t3 = t2 + "| "@;
    let t4 = t3 + direct;
    let t5 = t4 + "\n  Spawn:   |"@;
    let t6 = t5 + spawn_bar;
    let t7 = t6 + "| "@;
    let t8 = t7 + spawn;
    let t9 = t8 + "\n  Tokio:   |"@;
    let t10 = t9 + tokio_bar;
    let t11 = t10 + "| "@;
    let t12 = t11 + tokio;
    let t13 = t12 + "\n\n"@;
    assert(t13 == whole);
    text::occurs_between(Seq::empty(), whole, Seq::empty());
    text::occurs_beginning(t12, "\n\n"@, whole);
    text::occurs_beginning(t11, tokio, whole);
    text::occurs_beginning(t10, "| "@, whole);
    text::occurs_beginning(t9, tokio_bar, whole);
    text::occurs_beginning(t8, "\n  Tokio:   |"@, whole);
    text::occurs_beginning(t7, spawn, whole);
    text::occurs_beginning(t6, "| "@, whole);
    text::occurs_beginning(t5, spawn_bar, whole);
    text::occurs_beginning(t4, "\n  Spawn:   |"@, whole);
    text::occurs_beginning(t3, direct, whole);
    text::occurs_beginning(t2, "| "@, whole);
    text::occurs_beginning(t1, direct_bar, whole);
    text::occurs_end_of_three(t0, "  databases:\n  Direct:  |"@, direct_bar, "| "@, whole);
    text::occurs_end_of_three(t2, "| "@, direct, "\n  Spawn:   |"@, whole);
    text::occurs_end_of_three(t4, "\n  Spawn:   |"@, spawn_bar, "| "@, whole);
    text::occurs_end_of_three(t6, "| "@, spawn, "\n  Tokio:   |"@, whole);
    text::occurs_end_of_three(t8, "\n  Tokio:   |"@, tokio_bar, "| "@, whole);
    text::occurs_end_of_three(t10, "| "@, tokio, "\n\n"@, whole);
}

/// A chart names its write delay and has the bars for each number of databases.
pub proof fn chart_has_its_bars(
    rows: Seq<Row<StoredMetrics>>,
    databases: Seq<nat>,
    delay: nat,
    bars: Seq<Bars>,
)
    ensures
        ({
            let whole = chart(rows, databases, delay, bars);
            let name = delay::delay_name(delay);
            let inner = groups(rows, databases, delay, bars);
            &&& text::occurs_in("\n\n=== Read Throughput (req/sec) - "@ + name + " ===\n\n"@, whole)
            &&& text::occurs_in(" ===\n\n"@ + inner, whole)
            &&& whole.len()
                == "\n\n=== Read Throughput (req/sec) - "@.len() + name.len() + " ===\n\n"@.len()
                    + inner.len()
        }),
{
    let whole = chart(rows, databases, delay, bars);
    let name = delay::delay_name(delay);
    let inner = groups(rows, databases, delay, bars);
    let t0 = "\n\n=== Read Throughput (req/sec) - "@;
    let t1 = t0 + name;
    let t2 = t1 + " ===\n\n"@;
    let t3 = t2 + inner;
    assert(t3 == whole);
    text::occurs_between(Seq::empty(), whole, Seq::empty());
    text::occurs_beginning(t2, inner, whole);
    text::occurs_beginning(t1, " ===\n\n"@, whole);
    text::occurs_end_of_two(t1, " ===\n\n"@, inner, whole);
}

/// One more number of databases adds its bars to a chart, and one more write delay adds one chart.
pub proof fn charts_grow_by_one(
    rows: Seq<Row<StoredMetrics>>,
    delays: Seq<nat>,
    databases: Seq<nat>,
    bars: Seq<Vec<Bars>>,
    own: Seq<Bars>,
    delay: nat,
    count: nat,
)
    ensures
        groups(rows, Seq::empty(), delay, own) == Seq::<char>::empty(),
        groups(rows, databases.push(count), delay, own) == groups(rows, databases, delay, own)
            + group(rows, count, delay, own[databases.len() as int]),
        charts(rows, Seq::empty(), databases, bars) == Seq::<char>::empty(),
        charts(rows, delays.push(delay), databases, bars) == charts(rows, delays, databases, bars)
            + chart(rows, databases, delay, bars[delays.len() as int]@),
{
    assert(databases.push(count).drop_last() =~= databases);
    assert(delays.push(delay).drop_last() =~= delays);
}

/// Bars are complete exactly where each write delay has as many as there are numbers of databases.
pub proof fn bars_are_complete_by_number(bars: Seq<Vec<Bars>>, delays: nat, databases: nat)
    ensures
        bars_complete(bars, delays, databases) <==> bars.len() == delays && forall|d: int|
            0 <= d < delays ==> (#[trigger] bars[d])@.len() == databases,
{
}

} // verus!
