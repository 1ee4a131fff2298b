//! The benchmark's results as plain text tables.

use crate::approach::Approach;
use crate::delay;
use crate::metrics;
use crate::metrics::{get_value, Metric, RunMetrics};
use crate::rows;
use crate::rows::Row;
use crate::text;
use vstd::prelude::*;

verus! {

/// The title.
pub const TITLE: &'static str = "SQLite Async Benchmark Results\n==============================\n\n";

/// The remark below the heading of a table of completed writes.
pub const STARVATION_NOTE: &'static str = "(Low % = worker thread starvation)\n";

/// A rule of `n` copies of `unit` on a line of its own.
pub open spec fn rule(unit: Seq<char>, n: nat) -> Seq<char> {
    text::repeated(unit, n) + "\n"@
}

/// A number of databases and three texts, each flush right in its column.
pub open spec fn columns(
    first: Seq<char>,
    direct: Seq<char>,
    spawn: Seq<char>,
    tokio: Seq<char>,
) -> Seq<char> {
    text::right_aligned(first, 10) + " "@ + text::right_aligned(direct, 15) + " "@
        + text::right_aligned(spawn, 15) + " "@ + text::right_aligned(tokio, 15)
}

/// The figure of a metric in its column of fifteen characters.
pub open spec fn cell(figure: Seq<char>, metric: Metric) -> Seq<char> {
    match metric {
        Metric::WriteCompletion => text::right_aligned(figure, 14) + "%"@,
        Metric::ReadThroughput => text::right_aligned(figure, 15),
        Metric::P99ReadLatency => text::right_aligned(figure, 15),
    }
}

/// One line of a table: a number of databases and the figure of each approach.
pub open spec fn line(
    rows: Seq<Row<RunMetrics>>,
    metric: Metric,
    delay: nat,
    databases: nat,
) -> Seq<char> {
    let direct = metrics::value_of(rows, Approach::DirectBlocking, databases, delay, metric);
    let spawn = metrics::value_of(rows, Approach::SpawnBlocking, databases, delay, metric);
    let tokio = metrics::value_of(rows, Approach::TokioRusqlite, databases, delay, metric);
    text::right_aligned(text::decimal(databases), 10) + " "@ + cell(direct.one_decimal, metric)
        + " "@ + cell(spawn.one_decimal, metric) + " "@ + cell(tokio.one_decimal, metric) + "\n"@
}

/// The lines of a table, one for each number of databases in turn.
pub open spec fn lines(
    rows: Seq<Row<RunMetrics>>,
    metric: Metric,
    delay: nat,
    databases: Seq<nat>,
) -> Seq<char>
    decreases databases.len(),
{
    if databases.len() == 0 {
        Seq::empty()
    } else {
        lines(rows, metric, delay, databases.drop_last()) + line(
            rows,
            metric,
            delay,
            databases.last(),
        )
    }
}

/// The heads of the columns.
pub open spec fn column_heads() -> Seq<char> {
    columns("DBs"@, "Direct"@, "spawn_block"@, "tokio-rsql"@) + "\n"@ + rule("-"@, 60)
}

/// What the text says of one write delay: how many of the expected writes were completed, and how
/// many reads per second there were.
pub open spec fn section(
    rows: Seq<Row<RunMetrics>>,
    delay: nat,
    databases: Seq<nat>,
) -> Seq<char> {
    "\n"@ + rule("="@, 80) + "WRITE COMPLETION RATIO - "@ + delay::delay_name(delay)
        + " write delay\n"@ + STARVATION_NOTE@ + rule("="@, 80) + "\n"@ + column_heads() + lines(
        rows,
        Metric::WriteCompletion,
        delay,
        databases,
    ) + "\n"@ + rule("="@, 80) + "READ THROUGHPUT (req/sec) - "@ + delay::delay_name(delay)
        + " write delay\n"@ + rule("="@, 80) + "\n"@ + column_heads() + lines(
        rows,
        Metric::ReadThroughput,
        delay,
        databases,
    )
}

/// What the text says of each write delay in turn.
pub open spec fn sections(
    rows: Seq<Row<RunMetrics>>,
    delays: Seq<nat>,
    databases: Seq<nat>,
) -> Seq<char>
    decreases delays.len(),
{
    if delays.len() == 0 {
        Seq::empty()
    } else {
        sections(rows, delays.drop_last(), databases) + section(rows, delays.last(), databases)
    }
}

/// The results as text, along the given write delays and numbers of databases.
pub open spec fn plots(
    rows: Seq<Row<RunMetrics>>,
    delays: Seq<nat>,
    databases: Seq<nat>,
) -> Seq<char> {
    TITLE@ + sections(rows, delays, databases)
}

/// Writes a rule on a line of its own.
pub fn write_rule(unit: &str, n: usize) -> (s: String)
    ensures
        s@ == rule(unit@, n as nat),
{
    let mut s = text::repeat_text(unit, n);
    s.append("\n");
    s
}

/// Writes four texts, each flush right in its column.
pub fn write_columns(first: &str, direct: &str, spawn: &str, tokio: &str) -> (s: String)
    ensures
        s@ == columns(first@, direct@, spawn@, tokio@),
{
    let direct = text::align_right(direct, 15);
    let spawn = text::align_right(spawn, 15);
    let tokio = text::align_right(tokio, 15);
    let mut s = text::align_right(first, 10);
    s.append(" ");
    s.append(direct.as_str());
    s.append(" ");
    s.append(spawn.as_str());
    s.append(" ");
    s.append(tokio.as_str());
    s
}

/// Writes the heads of the columns.
fn write_column_heads() -> (s: String)
    ensures
        s@ == column_heads(),
{
    let rule = write_rule("-", 60);
    let mut s = write_columns("DBs", "Direct", "spawn_block", "tokio-rsql");
    s.append("\n");
    s.append(rule.as_str());
    s
}

/// Writes the figure of a metric in its column.
fn write_cell(
    rows: &Vec<Row<RunMetrics>>,
    approach: Approach,
    metric: Metric,
    delay: u64,
    databases: u64,
) -> (s: String)
    ensures
        s@ == cell(
            metrics::value_of(
                rows@,
                approach,
                databases as nat,
                delay as nat,
                metric,
            ).one_decimal,
            metric,
        ),
{
    let figure = get_value(rows, approach, databases, delay, metric);
    match metric {
        Metric::WriteCompletion => {
            let mut s = text::align_right(figure.one_decimal.as_str(), 14);
            s.append("%");
            s
        },
        Metric::ReadThroughput => text::align_right(figure.one_decimal.as_str(), 15),
        Metric::P99ReadLatency => text::align_right(figure.one_decimal.as_str(), 15),
    }
}

/// Writes the lines of a table.
fn write_lines(
    rows: &Vec<Row<RunMetrics>>,
    metric: Metric,
    delay: u64,
    databases: &Vec<u64>,
) -> (s: String)
    ensures
        s@ == lines(rows@, metric, delay as nat, rows::nats(databases@)),
{
    let mut s = String::new();
    let mut i: usize = 0;
    let ghost all = rows::nats(databases@);
    while i < databases.len()
        invariant
            i <= databases@.len(),
            all == rows::nats(databases@),
            s@ == lines(rows@, metric, delay as nat, all.take(i as int)),
        decreases databases.len() - i,
    {
        assert(all.take(i + 1).drop_last() =~= all.take(i as int));
        let n = databases[i];
        let number = text::decimal_text(n);
        let direct = write_cell(rows, Approach::DirectBlocking, metric, delay, n);
        let spawn = write_cell(rows, Approach::SpawnBlocking, metric, delay, n);
        let tokio = write_cell(rows, Approach::TokioRusqlite, metric, delay, n);
        let mut line = text::align_right(number.as_str(), 10);
        line.append(" ");
        line.append(direct.as_str());
        line.append(" ");
        line.append(spawn.as_str());
        line.append(" ");
        line.append(tokio.as_str());
        line.append("\n");
        s.append(line.as_str());
        i = i + 1;
    }
    assert(all.take(all.len() as int) =~= all);
    s
}

/// Writes what the text says of one write delay.
fn write_section(rows: &Vec<Row<RunMetrics>>, delay: u64, databases: &Vec<u64>) -> (s: String)
    ensures
        s@ == section(rows@, delay as nat, rows::nats(databases@)),
{
    let name = delay::format_delay(delay);
    let double = write_rule("=", 80);
    let heads = write_column_heads();
    let completion = write_lines(rows, Metric::WriteCompletion, delay, databases);
    let throughput = write_lines(rows, Metric::ReadThroughput, delay, databases);
    let mut s = String::from_str("\n");
    s.append(double.as_str());
    s.append("WRITE COMPLETION RATIO - ");
    s.append(name.as_str());
    s.append(" write delay\n");
    s.append(STARVATION_NOTE);
    s.append(double.as_str());
    s.append("\n");
    s.append(heads.as_str());
    s.append(completion.as_str());
    s.append("\n");
    s.append(double.as_str());
    s.append("READ THROUGHPUT (req/sec) - ");
    s.append(name.as_str());
    s.append(" write delay\n");
    s.append(double.as_str());
    s.append("\n");
    s.append(heads.as_str());
    s.append(throughput.as_str());
    s
}

/// The results as text, along the given write delays and numbers of databases.
pub fn plots_along(
    rows: &Vec<Row<RunMetrics>>,
    delays: &Vec<u64>,
    databases: &Vec<u64>,
) -> (s: String)
    ensures
        s@ == plots(rows@, rows::nats(delays@), rows::nats(databases@)),
{
    let mut all = String::new();
    let mut i: usize = 0;
    let ghost every = rows::nats(delays@);
    while i < delays.len()
        invariant
            i <= delays@.len(),
            every == rows::nats(delays@),
            all@ == sections(rows@, every.take(i as int), rows::nats(databases@)),
        decreases delays.len() - i,
    {
        assert(every.take(i + 1).drop_last() =~= every.take(i as int));
        let section = write_section(rows, delays[i], databases);
        all.append(section.as_str());
        i = i + 1;
    }
    assert(every.take(every.len() as int) =~= every);
    let mut s = String::from_str(TITLE);
    s.append(all.as_str());
    s
}

/// The results as text: each write delay and each number of databases that occurs once, in no
/// particular order.
pub fn generate_ascii_plots(rows: &Vec<Row<RunMetrics>>) -> (s: String)
    ensures
        exists|delays: Seq<nat>, databases: Seq<nat>|
            rows::is_order_of(delays, rows::delays_of(rows@)) && rows::is_order_of(
                databases,
                rows::databases_of(rows@),
            ) && s@ == #[trigger] plots(rows@, delays, databases),
{
    let delays = rows::distinct_delays(rows);
    let databases = rows::distinct_databases(rows);
    plots_along(rows, &delays, &databases)
}

// ---------------------------------------------------------------------------
// Laws
// ---------------------------------------------------------------------------

/// Each number of databases has its line in a table.
proof fn lines_hold_line(
    rows: Seq<Row<RunMetrics>>,
    metric: Metric,
    delay: nat,
    databases: Seq<nat>,
    d: int,
)
    requires
        0 <= d < databases.len(),
    ensures
        text::occurs_in(
            line(rows, metric, delay, databases[d]),
            lines(rows, metric, delay, databases),
        ),
    decreases databases.len(),
{
    let own = line(rows, metric, delay, databases[d]);
    let front = databases.drop_last();
    let head = lines(rows, metric, delay, front);
    let tail = line(rows, metric, delay, databases.last());
    if d == front.len() {
        text::occurs_between(head, own, Seq::empty());
    } else {
        lines_hold_line(rows, metric, delay, front, d);
        text::occurs_between(Seq::empty(), head, tail);
        text::occurs_through(own, head, head + tail);
    }
}

/// Each write delay has its section.
proof fn sections_hold_section(
    rows: Seq<Row<RunMetrics>>,
    delays: Seq<nat>,
    databases: Seq<nat>,
    w: int,
)
    requires
        0 <= w < delays.len(),
    ensures
        text::occurs_in(section(rows, delays[w], databases), sections(rows, delays, databases)),
    decreases delays.len(),
{
    let own = section(rows, delays[w], databases);
    let front = delays.drop_last();
    let head = sections(rows, front, databases);
    let tail = section(rows, delays.last(), databases);
    if w == front.len() {
        text::occurs_between(head, own, Seq::empty());
    } else {
        sections_hold_section(rows, front, databases, w);
        text::occurs_between(Seq::empty(), head, tail);
        text::occurs_through(own, head, head + tail);
    }
}

/// The text shows the completed writes and the reads per second of every scenario along its axes:
/// the line with the figures of the three approaches occurs in it.
pub proof fn plots_show_every_scenario(
    rows: Seq<Row<RunMetrics>>,
    metric: Metric,
    delays: Seq<nat>,
    databases: Seq<nat>,
    w: int,
    d: int,
)
    requires
        metric == Metric::WriteCompletion || metric == Metric::ReadThroughput,
        0 <= w < delays.len(),
        0 <= d < databases.len(),
    ensures
        text::occurs_in(
            line(rows, metric, delays[w], databases[d]),
            plots(rows, delays, databases),
        ),
{
    let delay = delays[w];
    let own = line(rows, metric, delay, databases[d]);
    let whole = section(rows, delay, databases);
    let table = lines(rows, metric, delay, databases);
    lines_hold_line(rows, metric, delay, databases, d);
    section_shows_both_tables(rows, delay, databases);
    text::occurs_between(column_heads(), table, "\n"@);
    text::occurs_between(column_heads(), table, Seq::empty());
    if metric == Metric::WriteCompletion {
        text::occurs_through(table, column_heads() + table + "\n"@, whole);
    } else {
        text::occurs_through(table, column_heads() + table, whole);
    }
    text::occurs_through(own, table, whole);
    sections_hold_section(rows, delays, databases, w);
    let all = sections(rows, delays, databases);
    text::occurs_through(own, whole, all);
    text::occurs_between(TITLE@, all, Seq::empty());
    text::occurs_through(own, all, plots(rows, delays, databases));
}

/// A section has a table of the completed writes and one of the reads per second, each under the
/// name of the write delay.
pub proof fn section_shows_both_tables(
    rows: Seq<Row<RunMetrics>>,
    delay: nat,
    databases: Seq<nat>,
)
    ensures
        ({
            let whole = section(rows, delay, databases);
            let name = delay::delay_name(delay);
            let completion = lines(rows, Metric::WriteCompletion, delay, databases);
            let throughput = lines(rows, Metric::ReadThroughput, delay, databases);
            &&& text::occurs_in("WRITE COMPLETION RATIO - "@ + name + " write delay\n"@, whole)
            &&& text::occurs_in(column_heads() + completion + "\n"@, whole)
            &&& text::occurs_in("READ THROUGHPUT (req/sec) - "@ + name + " write delay\n"@, whole)
            &&& text::occurs_in(column_heads() + throughput, whole)
            &&& whole.len()
                == "\n"@.len() + rule("="@, 80).len() + "WRITE COMPLETION RATIO - "@.len()
                    + name.len() + " write delay\n"@.len() + STARVATION_NOTE@.len()
                    + rule("="@, 80).len() + "\n"@.len() + column_heads().len()
                    + completion.len() + "\n"@.len() + rule("="@, 80).len()
                    + "READ THROUGHPUT (req/sec) - "@.len() + name.len()
                    + " write delay\n"@.len() + rule("="@, 80).len() + "\n"@.len()
                    + column_heads().len() + throughput.len()
        }),
{
    let whole = section(rows, delay, databases);
    let name = delay::delay_name(delay);
    let completion = lines(rows, Metric::WriteCompletion, delay, databases);
    let throughput = lines(rows, Metric::ReadThroughput, delay, databases);
    let t0 = "\n"@;
    let t1 = t0 + rule("="@, 80);
    let t2 = t1 + "WRITE COMPLETION RATIO - "@;
    let t3 = t2 + name;
    let t4 = t3 + " write delay\n"@;
    let t5 = t4 + STARVATION_NOTE@;
    let t6 = t5 + rule("="@, 80);
    let t7 = t6 + "\n"@;
    let t8 = t7 + column_heads();
    let t9 = t8 + completion;
    let t10 = t9 + "\n"@;
    let t11 = t10 + rule("="@, 80);
    let t12 = t11 + "READ THROUGHPUT (req/sec) - "@;
    let t13 = t12 + name;
    let t14 = t13 + " write delay\n"@;
    let t15 = t14 + rule("="@, 80);
    let t16 = t15 + "\n"@;
    let t17 = t16 + column_heads();
    let t18 = t17 + throughput;
    assert(t18 == whole);
    text::occurs_between(Seq::empty(), whole, Seq::empty());
    text::occurs_beginning(t17, throughput, whole);
    text::occurs_beginning(t16, column_heads(), whole);
    text::occurs_beginning(t15, "\n"@, whole);
    text::occurs_beginning(t14, rule("="@, 80), whole);
    text::occurs_beginning(t13, " write delay\n"@, whole);
    text::occurs_beginning(t12, name, whole);
    text::occurs_beginning(t11, "READ THROUGHPUT (req/sec) - "@, whole);
    text::occurs_beginning(t10, rule("="@, 80), whole);
    text::occurs_beginning(t9, "\n"@, whole);
    text::occurs_beginning(t8, completion, whole);
    text::occurs_beginning(t7, column_heads(), whole);
    text::occurs_beginning(t6, "\n"@, whole);
    text::occurs_beginning(t5, rule("="@, 80), whole);
    text::occurs_beginning(t4, STARVATION_NOTE@, whole);
    text::occurs_beginning(t3, " write delay\n"@, whole);
    text::occurs_beginning(t2, name, whole);
    text::occurs_beginning(t1, "WRITE COMPLETION RATIO - "@, whole);
    text::occurs_end_of_three(t1, "WRITE COMPLETION RATIO - "@, name, " write delay\n"@, whole);
    text::occurs_end_of_three(t7, column_heads(), completion, "\n"@, whole);
    text::occurs_end_of_three(t11, "READ THROUGHPUT (req/sec) - "@, name, " write delay\n"@, whole);
    text::occurs_end_of_two(t16, column_heads(), throughput, whole);
}

/// The four columns stand in order, each flush right.
pub proof fn columns_keep_their_order(
    first: Seq<char>,
    direct: Seq<char>,
    spawn: Seq<char>,
    tokio: Seq<char>,
)
    ensures
        ({
            let whole = columns(first, direct, spawn, tokio);
            let first_cell = text::right_aligned(first, 10);
            let direct_cell = text::right_aligned(direct, 15);
            let spawn_cell = text::right_aligned(spawn, 15);
            let tokio_cell = text::right_aligned(tokio, 15);
            &&& text::occurs_in(first_cell + " "@, whole)
            &&& text::occurs_in(" "@ + direct_cell + " "@, whole)
            &&& text::occurs_in(" "@ + spawn_cell + " "@, whole)
            &&& text::occurs_in(" "@ + tokio_cell, whole)
            &&& whole.len()
                == first_cell.len() + " "@.len() + direct_cell.len() + " "@.len()
                    + spawn_cell.len() + " "@.len() + tokio_cell.len()
        }),
{
    let whole = columns(first, direct, spawn, tokio);
    let first_cell = text::right_aligned(first, 10);
    let direct_cell = text::right_aligned(direct, 15);
    let spawn_cell = text::right_aligned(spawn, 15);
    let tokio_cell = text::right_aligned(tokio, 15);
    let t0 = first_cell;
    let t1 = t0 + " "@;
    let t2 = t1 + direct_cell;
    let t3 = t2 + " "@;
    let t4 = t3 + spawn_cell;
    let t5 = t4 + " "@;
    let t6 = t5 + tokio_cell;
    assert(t6 == whole);
    text::occurs_between(Seq::empty(), whole, Seq::empty());
    text::occurs_beginning(t5, tokio_cell, whole);
    text::occurs_beginning(t4, " "@, whole);
    text::occurs_beginning(t3, spawn_cell, whole);
    text::occurs_beginning(t2, " "@, whole);
    text::occurs_beginning(t1, direct_cell, whole);
    text::occurs_end_of_three(t0, " "@, direct_cell, " "@, whole);
    text::occurs_end_of_three(t2, " "@, spawn_cell, " "@, whole);
    text::occurs_end_of_two(t4, " "@, tokio_cell, whole);
}

/// A line has the number of databases, then what is shown for direct blocking, for the blocking
/// threads and for the thread of each database.
pub proof fn line_shows_each_approach(
    rows: Seq<Row<RunMetrics>>,
    metric: Metric,
    delay: nat,
    databases: nat,
)
    ensures
        ({
            let whole = line(rows, metric, delay, databases);
            let number = text::right_aligned(text::decimal(databases), 10);
            let direct = cell(
                metrics::value_of(
                    rows,
                    Approach::DirectBlocking,
                    databases,
                    delay,
                    metric,
                ).one_decimal,
                metric,
            );
            let spawn = cell(
                metrics::value_of(
                    rows,
                    Approach::SpawnBlocking,
                    databases,
                    delay,
                    metric,
                ).one_decimal,
                metric,
            );
            let tokio = cell(
                metrics::value_of(
                    rows,
                    Approach::TokioRusqlite,
                    databases,
                    delay,
                    metric,
                ).one_decimal,
                metric,
            );
            &&& text::occurs_in(number + " "@, whole)
            &&& text::occurs_in(" "@ + direct + " "@, whole)
            &&& text::occurs_in(" "@ + spawn + " "@, whole)
            &&& text::occurs_in(" "@ + tokio + "\n"@, whole)
            &&& whole.len()
                == number.len() + " "@.len() + direct.len() + " "@.len() + spawn.len() + " "@.len()
                    + tokio.len() + "\n"@.len()
        }),
{
    let whole = line(rows, metric, delay, databases);
    let number = text::right_aligned(text::decimal(databases), 10);
    let direct = cell(
        metrics::value_of(rows, Approach::DirectBlocking, databases, delay, metric).one_decimal,
        metric,
    );
    let spawn = cell(
        metrics::value_of(rows, Approach::SpawnBlocking, databases, delay, metric).one_decimal,
        metric,
    );
    let tokio = cell(
        metrics::value_of(rows, Approach::TokioRusqlite, databases, delay, metric).one_decimal,
        metric,
    );
    let t0 = number;
    let t1 = t0 + " "@;
    let t2 = t1 + direct;
    let t3 = t2 + " "@;
    let t4 = t3 + spawn;
    let t5 = t4 + " "@;
    let t6 = t5 + tokio;
    let t7 = t6 + "\n"@;
    assert(t7 == whole);
    text::occurs_between(Seq::empty(), whole, Seq::empty());
    text::occurs_beginning(t6, "\n"@, whole);
    text::occurs_beginning(t5, tokio, whole);
    text::occurs_beginning(t4, " "@, whole);
    text::occurs_beginning(t3, spawn, whole);
    text::occurs_beginning(t2, " "@, whole);
    text::occurs_beginning(t1, direct, whole);
    text::occurs_end_of_three(t0, " "@, direct, " "@, whole);
    text::occurs_end_of_three(t2, " "@, spawn, " "@, whole);
    text::occurs_end_of_three(t4, " "@, tokio, "\n"@, whole);
}

/// A cell is as wide as its column unless the figure is wider; completed writes end in a percent
/// sign, with the figure before it, and other figures stand at the very end.
pub proof fn cell_ends_with_its_figure(figure: Seq<char>, metric: Metric)
    ensures
        ({
            let shown = cell(figure, metric);
            let n = shown.len() as int;
            &&& metric is WriteCompletion ==> {
                &&& n == if figure.len() >= 14 { figure.len() + 1 } else { 15 }
                &&& shown[n - 1] == '%'
                &&& shown.subrange(n - 1 - figure.len(), n - 1) == figure
            }
            &&& !(metric is WriteCompletion) ==> {
                &&& n == if figure.len() >= 15 { figure.len() as int } else { 15 }
                &&& shown.skip(n - figure.len()) == figure
            }
        }),
{
    reveal_strlit("%");
    let width: nat = if metric is WriteCompletion {
        14
    } else {
        15
    };
    text::right_aligned_len(figure, width);
    text::right_aligned_stands_at_the_end(figure, width, 0);
    let shown = cell(figure, metric);
    let n = shown.len() as int;
    let inner = text::right_aligned(figure, width);
    if metric is WriteCompletion {
        assert(shown.subrange(n - 1 - figure.len(), n - 1) =~= inner.skip(
            inner.len() - figure.len(),
        ));
    }
}

/// One more number of databases adds one line to a table, one more write delay adds one section to
/// the text, and without any there is nothing but the title.
pub proof fn plots_grow_by_one(
    rows: Seq<Row<RunMetrics>>,
    metric: Metric,
    delays: Seq<nat>,
    databases: Seq<nat>,
    delay: nat,
    count: nat,
)
    ensures
        lines(rows, metric, delay, Seq::empty()) == Seq::<char>::empty(),
        lines(rows, metric, delay, databases.push(count)) == lines(rows, metric, delay, databases)
            + line(rows, metric, delay, count),
        plots(rows, Seq::empty(), databases) == TITLE@,
        plots(rows, delays.push(delay), databases) == plots(rows, delays, databases) + section(
            rows,
            delay,
            databases,
        ),
{
    assert(databases.push(count).drop_last() =~= databases);
    assert(delays.push(delay).drop_last() =~= delays);
    assert(plots(rows, Seq::empty(), databases) =~= TITLE@);
    assert(plots(rows, delays.push(delay), databases) =~= plots(rows, delays, databases) + section(
        rows,
        delay,
        databases,
    ));
}

/// A rule is as many copies as asked for, and the end of the line.
pub proof fn rule_is_one_line(unit: char, n: nat, i: int)
    ensures
        rule(seq![unit], n).len() == n + 1,
        rule(seq![unit], n)[n as int] == '\n',
        0 <= i < n ==> rule(seq![unit], n)[i] == unit,
{
    reveal_strlit("\n");
    let one = seq![unit];
    assert(one.len() * n == n) by (nonlinear_arith)
        requires
            one.len() == 1,
    ;
    text::repeated_len(one, n);
    if 0 <= i < n {
        text::repeated_holds_copies(seq![unit], n, i);
    }
}

/// The columns follow one another with one space between: the first, direct blocking, the blocking
/// threads, the thread of each database.
pub proof fn columns_stand_side_by_side(
    first: Seq<char>,
    direct: Seq<char>,
    spawn: Seq<char>,
    tokio: Seq<char>,
)
    ensures
        ({
            let whole = columns(first, direct, spawn, tokio);
            let a = text::right_aligned(first, 10);
            let b = text::right_aligned(direct, 15);
            let c = text::right_aligned(spawn, 15);
            let d = text::right_aligned(tokio, 15);
            let a_end = a.len();
            let b_end = a_end + 1 + b.len();
            let c_end = b_end + 1 + c.len();
            let d_end = c_end + 1 + d.len();
            &&& whole.subrange(0, a_end as int) == a
            &&& whole.subrange((a_end + 1) as int, b_end as int) == b
            &&& whole.subrange((b_end + 1) as int, c_end as int) == c
            &&& whole.subrange((c_end + 1) as int, d_end as int) == d
            &&& whole.len() == d_end
        }),
{
    reveal_strlit(" ");
    let whole = columns(first, direct, spawn, tokio);
    let a = text::right_aligned(first, 10);
    let b = text::right_aligned(direct, 15);
    let c = text::right_aligned(spawn, 15);
    let d = text::right_aligned(tokio, 15);
    let a_end = a.len();
    let b_end = a_end + 1 + b.len();
    let c_end = b_end + 1 + c.len();
    let d_end = c_end + 1 + d.len();
    assert(whole.subrange(0, a_end as int) =~= a);
    assert(whole.subrange((a_end + 1) as int, b_end as int) =~= b);
    assert(whole.subrange((b_end + 1) as int, c_end as int) =~= c);
    assert(whole.subrange((c_end + 1) as int, d_end as int) =~= d);
}

/// On a line the number of databases comes first, then the cell of direct blocking, that of the
/// blocking threads and that of the thread of each database, with one space between.
pub proof fn cells_stand_side_by_side(
    rows: Seq<Row<RunMetrics>>,
    metric: Metric,
    delay: nat,
    databases: nat,
)
    ensures
        ({
            let whole = line(rows, metric, delay, databases);
            let number = text::right_aligned(text::decimal(databases), 10);
            let direct = cell(
                metrics::value_of(
                    rows,
                    Approach::DirectBlocking,
                    databases,
                    delay,
                    metric,
                ).one_decimal,
                metric,
            );
            let spawn = cell(
                metrics::value_of(
                    rows,
                    Approach::SpawnBlocking,
                    databases,
                    delay,
                    metric,
                ).one_decimal,
                metric,
            );
            let tokio = cell(
                metrics::value_of(
                    rows,
                    Approach::TokioRusqlite,
                    databases,
                    delay,
                    metric,
                ).one_decimal,
                metric,
            );
            let number_end = number.len();
            let direct_end = number_end + 1 + direct.len();
            let spawn_end = direct_end + 1 + spawn.len();
            let tokio_end = spawn_end + 1 + tokio.len();
            &&& whole.subrange(0, number_end as int) == number
            &&& whole.subrange((number_end + 1) as int, direct_end as int) == direct
            &&& whole.subrange((direct_end + 1) as int, spawn_end as int) == spawn
            &&& whole.subrange((spawn_end + 1) as int, tokio_end as int) == tokio
            &&& whole.len() == tokio_end + 1
        }),
{
    reveal_strlit(" ");
    reveal_strlit("\n");
    let whole = line(rows, metric, delay, databases);
    let number = text::right_aligned(text::decimal(databases), 10);
    let direct = cell(
        metrics::value_of(rows, Approach::DirectBlocking, databases, delay, metric).one_decimal,
        metric,
    );
    let spawn = cell(
        metrics::value_of(rows, Approach::SpawnBlocking, databases, delay, metric).one_decimal,
        metric,
    );
    let tokio = cell(
        metrics::value_of(rows, Approach::TokioRusqlite, databases, delay, metric).one_decimal,
        metric,
    );
    let number_end = number.len();
    let direct_end = number_end + 1 + direct.len();
    let spawn_end = direct_end + 1 + spawn.len();
    let tokio_end = spawn_end + 1 + tokio.len();
    assert(whole.subrange(0, number_end as int) =~= number);
    assert(whole.subrange((number_end + 1) as int, direct_end as int) =~= direct);
    assert(whole.subrange((direct_end + 1) as int, spawn_end as int) =~= spawn);
    assert(whole.subrange((spawn_end + 1) as int, tokio_end as int) =~= tokio);
}

} // verus!
