//! The tables that are shown on the terminal.

use crate::approach::Approach;
use crate::ascii;
use crate::delay;
use crate::latency;
use crate::latency::Latency;
use crate::plot::stored;
use crate::plot::stored::StoredMetrics;
use crate::rows;
use crate::rows::Row;
use crate::text;
use vstd::prelude::*;

verus! {

/// The title.
pub const TITLE: &'static str = "\n╔══════════════════════════════════════════════════════════════════════════════╗\n║                         BENCHMARK SUMMARY                                    ║\n╚══════════════════════════════════════════════════════════════════════════════╝\n";

/// Four columns as in the benchmark's own tables, and a narrower fifth, on a line.
pub open spec fn wide_line(
    first: Seq<char>,
    direct: Seq<char>,
    spawn: Seq<char>,
    tokio: Seq<char>,
    last: Seq<char>,
) -> Seq<char> {
    ascii::columns(first, direct, spawn, tokio) + " "@ + text::right_aligned(last, 12) + "\n"@
}

/// The heads of the columns.
pub open spec fn heads(last: Seq<char>) -> Seq<char> {
    wide_line("DBs"@, "Direct"@, "spawn_block"@, "tokio-rsql"@, last) + ascii::rule("─"@, 70)
}

// ---------------------------------------------------------------------------
// Reads per second
// ---------------------------------------------------------------------------

/// How many times as much the better alternative reads as direct blocking does, given as the
/// quotient's notation; without bound where direct blocking reads nothing.
pub open spec fn gain(
    rows: Seq<Row<StoredMetrics>>,
    databases: nat,
    delay: nat,
    quotient: Seq<char>,
) -> Seq<char> {
    if stored::is_positive(
        stored::rank_at(
            rows,
            stored::source(rows, Approach::DirectBlocking, databases, delay),
        ),
    ) {
        quotient + "x"@
    } else {
        "∞"@
    }
}

/// The line of one number of databases.
pub open spec fn throughput_line(
    rows: Seq<Row<StoredMetrics>>,
    databases: nat,
    delay: nat,
    quotient: Seq<char>,
) -> Seq<char> {
    wide_line(
        text::decimal(databases),
        stored::throughput(rows, Approach::DirectBlocking, databases, delay).one_decimal,
        stored::throughput(rows, Approach::SpawnBlocking, databases, delay).one_decimal,
        stored::throughput(rows, Approach::TokioRusqlite, databases, delay).one_decimal,
        gain(rows, databases, delay, quotient),
    )
}

/// The lines of all numbers of databases in turn, with a quotient for each.
pub open spec fn throughput_lines(
    rows: Seq<Row<StoredMetrics>>,
    databases: Seq<nat>,
    delay: nat,
    quotients: Seq<Seq<char>>,
) -> Seq<char>
    decreases databases.len(),
{
    if databases.len() == 0 {
        Seq::empty()
    } else {
        throughput_lines(rows, databases.drop_last(), delay, quotients) + throughput_line(
            rows,
            databases.last(),
            delay,
            quotients[databases.len() - 1],
        )
    }
}

/// The table of one write delay.
pub open spec fn throughput_table(
    rows: Seq<Row<StoredMetrics>>,
    databases: Seq<nat>,
    delay: nat,
    quotients: Seq<Seq<char>>,
) -> Seq<char> {
    "\n━━━ Read Throughput (req/sec) - "@ + delay::delay_name(delay)
        + " write delay ━━━\n\n"@ + heads("Best Gain"@) + throughput_lines(
        rows,
        databases,
        delay,
        quotients,
    )
}

/// The tables of all write delays in turn. The quotients of each follow those of the one before.
pub open spec fn throughput_tables(
    rows: Seq<Row<StoredMetrics>>,
    delays: Seq<nat>,
    databases: Seq<nat>,
    quotients: Seq<Seq<char>>,
) -> Seq<char>
    decreases delays.len(),
{
    if delays.len() == 0 {
        Seq::empty()
    } else {
        throughput_tables(rows, delays.drop_last(), databases, quotients) + throughput_table(
            rows,
            databases,
            delays.last(),
            quotients.skip((delays.len() - 1) * databases.len()),
        )
    }
}

// ---------------------------------------------------------------------------
// Latency
// ---------------------------------------------------------------------------

/// The shorter of two latencies.
pub open spec fn shorter_of(a: Latency, b: Latency) -> Latency {
    if b.micros() < a.micros() {
        b
    } else {
        a
    }
}

/// Which approach has the shortest latency. Among equals the one with a thread for each database
/// comes first, then the one with blocking threads.
pub open spec fn best_label(direct: Latency, spawn: Latency, tokio: Latency) -> Seq<char> {
    let best = shorter_of(shorter_of(direct, spawn), tokio);
    if best == tokio {
        "tokio-rsql"@
    } else if best == spawn {
        "spawn_block"@
    } else {
        "direct"@
    }
}

/// The line of one number of databases.
pub open spec fn latency_line(
    rows: Seq<Row<StoredMetrics>>,
    databases: nat,
    delay: nat,
) -> Seq<char> {
    let direct = stored::p99(rows, Approach::DirectBlocking, databases, delay);
    let spawn = stored::p99(rows, Approach::SpawnBlocking, databases, delay);
    let tokio = stored::p99(rows, Approach::TokioRusqlite, databases, delay);
    wide_line(
        text::decimal(databases),
        latency::latency_name(direct),
        latency::latency_name(spawn),
        latency::latency_name(tokio),
        best_label(direct, spawn, tokio),
    )
}

/// The lines of all numbers of databases in turn.
pub open spec fn latency_lines(
    rows: Seq<Row<StoredMetrics>>,
    databases: Seq<nat>,
    delay: nat,
) -> Seq<char>
    decreases databases.len(),
{
    if databases.len() == 0 {
        Seq::empty()
    } else {
        latency_lines(rows, databases.drop_last(), delay) + latency_line(
            rows,
            databases.last(),
            delay,
        )
    }
}

/// The table of one write delay.
pub open spec fn latency_table(
    rows: Seq<Row<StoredMetrics>>,
    databases: Seq<nat>,
    delay: nat,
) -> Seq<char> {
    "\n━━━ P99 Read Latency (ms) - "@ + delay::delay_name(delay)
        + " write delay ━━━\n\n"@ + heads("Best"@) + latency_lines(rows, databases, delay)
}

/// The tables of all write delays in turn.
pub open spec fn latency_tables(
    rows: Seq<Row<StoredMetrics>>,
    delays: Seq<nat>,
    databases: Seq<nat>,
) -> Seq<char>
    decreases delays.len(),
{
    if delays.len() == 0 {
        Seq::empty()
    } else {
        latency_tables(rows, delays.drop_last(), databases) + latency_table(
            rows,
            databases,
            delays.last(),
        )
    }
}

/// All tables.
pub open spec fn summary_tables(
    rows: Seq<Row<StoredMetrics>>,
    delays: Seq<nat>,
    databases: Seq<nat>,
    quotients: Seq<Seq<char>>,
) -> Seq<char> {
    TITLE@ + throughput_tables(rows, delays, databases, quotients) + latency_tables(
        rows,
        delays,
        databases,
    )
}

// ---------------------------------------------------------------------------
// Writing
// ---------------------------------------------------------------------------

/// Writes five columns on a line.
fn write_wide_line(first: &str, direct: &str, spawn: &str, tokio: &str, last: &str) -> (s: String)
    ensures
        s@ == wide_line(first@, direct@, spawn@, tokio@, last@),
{
    let last = text::align_right(last, 12);
    let mut s = ascii::write_columns(first, direct, spawn, tokio);
    s.append(" ");
    s.append(last.as_str());
    s.append("\n");
    s
}

/// Writes the heads of the columns.
fn write_heads(last: &str) -> (s: String)
    ensures
        s@ == heads(last@),
{
    let rule = ascii::write_rule("─", 70);
    let mut s = write_wide_line("DBs", "Direct", "spawn_block", "tokio-rsql", last);
    s.append(rule.as_str());
    s
}

/// How many times as much the better alternative reads as direct blocking does.
fn write_gain(rows: &Vec<Row<StoredMetrics>>, databases: u64, delay: u64, quotient: &str) -> (s:
    String)
    ensures
        s@ == gain(rows@, databases as nat, delay as nat, quotient@),
{
    if stored::direct_is_positive(rows, databases, delay) {
        let mut s = String::from_str(quotient);
        s.append("x");
        s
    } else {
        String::from_str("∞")
    }
}

/// Writes the table of the reads per second for one write delay, whose quotients begin at `offset`.
fn write_throughput_table(
    rows: &Vec<Row<StoredMetrics>>,
    databases: &Vec<u64>,
    delay: u64,
    quotients: &Vec<String>,
    offset: usize,
) -> (s: String)
    requires
        offset + databases@.len() <= quotients@.len(),
    ensures
        s@ == throughput_table(
            rows@,
            rows::nats(databases@),
            delay as nat,
            text::views(quotients@).skip(offset as int),
        ),
{
    let name = delay::format_delay(delay);
    let heads = write_heads("Best Gain");
    let mut lines = String::new();
    let mut i: usize = 0;
    let ghost all = rows::nats(databases@);
    let ghost own = text::views(quotients@).skip(offset as int);
    while i < databases.len()
        invariant
            i <= databases@.len(),
            offset + databases@.len() <= quotients@.len(),
            all == rows::nats(databases@),
            own == text::views(quotients@).skip(offset as int),
            lines@ == throughput_lines(rows@, all.take(i as int), delay as nat, own),
        decreases databases.len() - i,
    {
        assert(all.take(i + 1).drop_last() =~= all.take(i as int));
        assert(own[i as int] == quotients@[offset + i]@);
        assert(quotients@.len() == quotients.len());
        let n = databases[i];
        let number = text::decimal_text(n);
        let direct = stored::get_value(rows, Approach::DirectBlocking, n, delay);
        let spawn = stored::get_value(rows, Approach::SpawnBlocking, n, delay);
        let tokio = stored::get_value(rows, Approach::TokioRusqlite, n, delay);
        let gain = write_gain(rows, n, delay, quotients[offset + i].as_str());
        let line = write_wide_line(
            number.as_str(),
            direct.one_decimal.as_str(),
            spawn.one_decimal.as_str(),
            tokio.one_decimal.as_str(),
            gain.as_str(),
        );
        lines.append(line.as_str());
        i = i + 1;
    }
    assert(all.take(all.len() as int) =~= all);
    let mut s = String::from_str("\n━━━ Read Throughput (req/sec) - ");
    s.append(name.as_str());
    s.append(" write delay ━━━\n\n");
    s.append(heads.as_str());
    s.append(lines.as_str());
    s
}

/// Which approach has the shortest latency.
pub fn best_approach(direct: Latency, spawn: Latency, tokio: Latency) -> (label: &'static str)
    requires
        direct.wf(),
        spawn.wf(),
        tokio.wf(),
    ensures
        label@ == best_label(direct, spawn, tokio),
{
    let mut best = direct;
    if latency::shorter(spawn, best) {
        best = spawn;
    }
    if latency::shorter(tokio, best) {
        best = tokio;
    }
    if best == tokio {
        "tokio-rsql"
    } else if best == spawn {
        "spawn_block"
    } else {
        "direct"
    }
}

/// Writes the table of the latencies for one write delay.
fn write_latency_table(rows: &Vec<Row<StoredMetrics>>, databases: &Vec<u64>, delay: u64) -> (s:
    String)
    requires
        stored::latencies_wf(rows@),
    ensures
        s@ == latency_table(rows@, rows::nats(databases@), delay as nat),
{
    let name = delay::format_delay(delay);
    let heads = write_heads("Best");
    let mut lines = String::new();
    let mut i: usize = 0;
    let ghost all = rows::nats(databases@);
    while i < databases.len()
        invariant
            i <= databases@.len(),
            stored::latencies_wf(rows@),
            all == rows::nats(databases@),
            lines@ == latency_lines(rows@, all.take(i as int), delay as nat),
        decreases databases.len() - i,
    {
        assert(all.take(i + 1).drop_last() =~= all.take(i as int));
        let n = databases[i];
        let number = text::decimal_text(n);
        let direct = stored::get_latency(rows, Approach::DirectBlocking, n, delay);
        let spawn = stored::get_latency(rows, Approach::SpawnBlocking, n, delay);
        let tokio = stored::get_latency(rows, Approach::TokioRusqlite, n, delay);
        let direct_text = latency::latency_text(direct);
        let spawn_text = latency::latency_text(spawn);
        let tokio_text = latency::latency_text(tokio);
        let line = write_wide_line(
            number.as_str(),
            direct_text.as_str(),
            spawn_text.as_str(),
            tokio_text.as_str(),
            best_approach(direct, spawn, tokio),
        );
        lines.append(line.as_str());
        i = i + 1;
    }
    assert(all.take(all.len() as int) =~= all);
    let mut s = String::from_str("\n━━━ P99 Read Latency (ms) - ");
    s.append(name.as_str());
    s.append(" write delay ━━━\n\n");
    s.append(heads.as_str());
    s.append(lines.as_str());
    s
}

/// Writes the tables of the reads per second.
fn write_throughput_tables(
    rows: &Vec<Row<StoredMetrics>>,
    delays: &Vec<u64>,
    databases: &Vec<u64>,
    quotients: &Vec<String>,
) -> (s: String)
    requires
        quotients@.len() == delays@.len() * databases@.len(),
    ensures
        s@ == throughput_tables(
            rows@,
            rows::nats(delays@),
            rows::nats(databases@),
            text::views(quotients@),
        ),
{
    let ghost all = rows::nats(delays@);
    let ghost counts = rows::nats(databases@);
    let ghost parts = text::views(quotients@);
    let mut s = String::new();
    let mut offset: usize = 0;
    let mut i: usize = 0;
    while i < delays.len()
        invariant
            i <= delays@.len(),
            quotients@.len() == delays@.len() * databases@.len(),
            counts.len() == databases@.len(),
            offset == i * counts.len(),
            all == rows::nats(delays@),
            counts == rows::nats(databases@),
            parts == text::views(quotients@),
            s@ == throughput_tables(rows@, all.take(i as int), counts, parts),
        decreases delays.len() - i,
    {
        let ghost more = all.take(i + 1);
        proof {
            assert(more.drop_last() =~= all.take(i as int));
            next_offset(i as int, delays@.len() as int, databases@.len() as int);
            assert(quotients@.len() == quotients.len());
        }
        let table = write_throughput_table(rows, databases, delays[i], quotients, offset);
        assert(table@ == throughput_table(rows@, counts, more.last(), parts.skip(offset as int)));
        assert((more.len() - 1) * counts.len() == offset);
        s.append(table.as_str());
        offset = offset + databases.len();
        i = i + 1;
    }
    assert(all.take(all.len() as int) =~= all);
    s
}

/// The quotients of one write delay end where those of the next begin, and no later than all do.
proof fn next_offset(i: int, delays: int, databases: int)
    requires
        0 <= i < delays,
        0 <= databases,
    ensures
        i * databases + databases == (i + 1) * databases,
        (i + 1) * databases <= delays * databases,
{
    assert(i * databases + databases == (i + 1) * databases) by (nonlinear_arith);
    assert((i + 1) * databases <= delays * databases) by (nonlinear_arith)
        requires
            i < delays,
            0 <= databases,
    ;
}

/// Writes the tables of the latencies.
fn write_latency_tables(
    rows: &Vec<Row<StoredMetrics>>,
    delays: &Vec<u64>,
    databases: &Vec<u64>,
) -> (s: String)
    requires
        stored::latencies_wf(rows@),
    ensures
        s@ == latency_tables(rows@, rows::nats(delays@), rows::nats(databases@)),
{
    let ghost all = rows::nats(delays@);
    let mut s = String::new();
    let mut i: usize = 0;
    while i < delays.len()
        invariant
            i <= delays@.len(),
            stored::latencies_wf(rows@),
            all == rows::nats(delays@),
            s@ == latency_tables(rows@, all.take(i as int), rows::nats(databases@)),
        decreases delays.len() - i,
    {
        assert(all.take(i + 1).drop_last() =~= all.take(i as int));
        let table = write_latency_table(rows, databases, delays[i]);
        s.append(table.as_str());
        i = i + 1;
    }
    assert(all.take(all.len() as int) =~= all);
    s
}

/// The tables that are shown on the terminal: for each write delay one of the reads per second,
/// then for each one of the latencies, each with a line for each number of databases.
///
/// `quotients` holds, for each write delay and within it for each number of databases, how many
/// times as much the better alternative reads as direct blocking does.
pub fn print_summary_tables(
    rows: &Vec<Row<StoredMetrics>>,
    delays: &Vec<u64>,
    databases: &Vec<u64>,
    quotients: &Vec<String>,
) -> (s: String)
    requires
        stored::latencies_wf(rows@),
        quotients@.len() == delays@.len() * databases@.len(),
    ensures
        s@ == summary_tables(
            rows@,
            rows::nats(delays@),
            rows::nats(databases@),
            text::views(quotients@),
        ),
{
    let first = write_throughput_tables(rows, delays, databases, quotients);
    let second = write_latency_tables(rows, delays, databases);
    let mut s = String::from_str(TITLE);
    s.append(first.as_str());
    s.append(second.as_str());
    s
}

// ---------------------------------------------------------------------------
// Laws
// ---------------------------------------------------------------------------

/// The approach named best has a latency that no other undercuts, and another approach is named
/// only where the one with a thread for each database is undercut.
pub proof fn best_label_is_best(direct: Latency, spawn: Latency, tokio: Latency)
    requires
        direct.wf(),
        spawn.wf(),
        tokio.wf(),
    ensures
        best_label(direct, spawn, tokio) == "tokio-rsql"@ <==> tokio.micros() <= direct.micros()
            && tokio.micros() <= spawn.micros(),
        best_label(direct, spawn, tokio) == "spawn_block"@ <==> spawn.micros() < tokio.micros()
            && spawn.micros() <= direct.micros(),
        best_label(direct, spawn, tokio) == "direct"@ <==> direct.micros() < tokio.micros()
            && direct.micros() < spawn.micros(),
{
    reveal_strlit("tokio-rsql");
    reveal_strlit("spawn_block");
    reveal_strlit("direct");
    assert("tokio-rsql"@[0] == 't' && "spawn_block"@[0] == 's' && "direct"@[0] == 'd');
}

/// Each number of databases has its line among the reads per second.
proof fn throughput_lines_hold_line(
    rows: Seq<Row<StoredMetrics>>,
    databases: Seq<nat>,
    delay: nat,
    quotients: Seq<Seq<char>>,
    d: int,
)
    requires
        0 <= d < databases.len(),
    ensures
        text::occurs_in(
            throughput_line(rows, databases[d], delay, quotients[d]),
            throughput_lines(rows, databases, delay, quotients),
        ),
    decreases databases.len(),
{
    let own = throughput_line(rows, databases[d], delay, quotients[d]);
    let front = databases.drop_last();
    let head = throughput_lines(rows, front, delay, quotients);
    let tail = throughput_line(rows, databases.last(), delay, quotients[databases.len() - 1]);
    if d == front.len() {
        text::occurs_between(head, own, Seq::empty());
    } else {
        throughput_lines_hold_line(rows, front, delay, quotients, d);
        text::occurs_between(Seq::empty(), head, tail);
        text::occurs_through(own, head, head + tail);
    }
}

/// Each number of databases has its line among the latencies.
proof fn latency_lines_hold_line(
    rows: Seq<Row<StoredMetrics>>,
    databases: Seq<nat>,
    delay: nat,
    d: int,
)
    requires
        0 <= d < databases.len(),
    ensures
        text::occurs_in(
            latency_line(rows, databases[d], delay),
            latency_lines(rows, databases, delay),
        ),
    decreases databases.len(),
{
    let own = latency_line(rows, databases[d], delay);
    let front = databases.drop_last();
    let head = latency_lines(rows, front, delay);
    let tail = latency_line(rows, databases.last(), delay);
    if d == front.len() {
        text::occurs_between(head, own, Seq::empty());
    } else {
        latency_lines_hold_line(rows, front, delay, d);
        text::occurs_between(Seq::empty(), head, tail);
        text::occurs_through(own, head, head + tail);
    }
}

/// Each write delay has its table of the reads per second.
proof fn throughput_tables_hold_table(
    rows: Seq<Row<StoredMetrics>>,
    delays: Seq<nat>,
    databases: Seq<nat>,
    quotients: Seq<Seq<char>>,
    w: int,
)
    requires
        0 <= w < delays.len(),
    ensures
        text::occurs_in(
            throughput_table(rows, databases, delays[w], quotients.skip(w * databases.len())),
            throughput_tables(rows, delays, databases, quotients),
        ),
    decreases delays.len(),
{
    let own = throughput_table(rows, databases, delays[w], quotients.skip(w * databases.len()));
    let front = delays.drop_last();
    let head = throughput_tables(rows, front, databases, quotients);
    let tail = throughput_table(
        rows,
        databases,
        delays.last(),
        quotients.skip((delays.len() - 1) * databases.len()),
    );
    if w == front.len() {
        text::occurs_between(head, own, Seq::empty());
    } else {
        throughput_tables_hold_table(rows, front, databases, quotients, w);
        text::occurs_between(Seq::empty(), head, tail);
        text::occurs_through(own, head, head + tail);
    }
}

/// Each write delay has its table of the latencies.
proof fn latency_tables_hold_table(
    rows: Seq<Row<StoredMetrics>>,
    delays: Seq<nat>,
    databases: Seq<nat>,
    w: int,
)
    requires
        0 <= w < delays.len(),
    ensures
        text::occurs_in(
            latency_table(rows, databases, delays[w]),
            latency_tables(rows, delays, databases),
        ),
    decreases delays.len(),
{
    let own = latency_table(rows, databases, delays[w]);
    let front = delays.drop_last();
    let head = latency_tables(rows, front, databases);
    let tail = latency_table(rows, databases, delays.last());
    if w == front.len() {
        text::occurs_between(head, own, Seq::empty());
    } else {
        latency_tables_hold_table(rows, front, databases, w);
        text::occurs_between(Seq::empty(), head, tail);
        text::occurs_through(own, head, head + tail);
    }
}

/// The tables show every scenario along their axes twice: the line with the reads per second,
/// which has the scenario's own quotient, and the line with the latencies occur in them.
pub proof fn tables_show_every_scenario(
    rows: Seq<Row<StoredMetrics>>,
    delays: Seq<nat>,
    databases: Seq<nat>,
    quotients: Seq<Seq<char>>,
    w: int,
    d: int,
)
    requires
        quotients.len() == delays.len() * databases.len(),
        0 <= w < delays.len(),
        0 <= d < databases.len(),
    ensures
        text::occurs_in(
            throughput_line(rows, databases[d], delays[w], quotients[w * databases.len() + d]),
            summary_tables(rows, delays, databases, quotients),
        ),
        text::occurs_in(
            latency_line(rows, databases[d], delays[w]),
            summary_tables(rows, delays, databases, quotients),
        ),
{
    let n = databases.len() as int;
    next_offset(w, delays.len() as int, n);
    assert(0 <= w * n) by (nonlinear_arith)
        requires
            0 <= w,
            0 <= n,
    ;
    let own = quotients.skip(w * n);
    assert(own[d] == quotients[w * n + d]);
    let whole = summary_tables(rows, delays, databases, quotients);
    let first = throughput_tables(rows, delays, databases, quotients);
    let second = latency_tables(rows, delays, databases);
    text::occurs_between(TITLE@, first, second);
    text::occurs_between(TITLE@ + first, second, Seq::empty());
    let name = delay::delay_name(delays[w]);

    let line = throughput_line(rows, databases[d], delays[w], own[d]);
    let lines = throughput_lines(rows, databases, delays[w], own);
    let table = throughput_table(rows, databases, delays[w], own);
    throughput_lines_hold_line(rows, databases, delays[w], own, d);
    text::occurs_between(
        "\n━━━ Read Throughput (req/sec) - "@ + name + " write delay ━━━\n\n"@ + heads(
            "Best Gain"@,
        ),
        lines,
        Seq::empty(),
    );
    text::occurs_through(line, lines, table);
    throughput_tables_hold_table(rows, delays, databases, quotients, w);
    text::occurs_through(line, table, first);
    text::occurs_through(line, first, whole);

    let line = latency_line(rows, databases[d], delays[w]);
    let lines = latency_lines(rows, databases, delays[w]);
    let table = latency_table(rows, databases, delays[w]);
    latency_lines_hold_line(rows, databases, delays[w], d);
    text::occurs_between(
        "\n━━━ P99 Read Latency (ms) - "@ + name + " write delay ━━━\n\n"@ + heads("Best"@),
        lines,
        Seq::empty(),
    );
    text::occurs_through(line, lines, table);
    latency_tables_hold_table(rows, delays, databases, w);
    text::occurs_through(line, table, second);
    text::occurs_through(line, second, whole);
}

/// The five columns stand in order, each flush right.
pub proof fn wide_line_keeps_the_order(
    first: Seq<char>,
    direct: Seq<char>,
    spawn: Seq<char>,
    tokio: Seq<char>,
    last: Seq<char>,
)
    ensures
        ({
            let whole = wide_line(first, direct, spawn, tokio, last);
            let first_cell = text::right_aligned(first, 10);
            let direct_cell = text::right_aligned(direct, 15);
            let spawn_cell = text::right_aligned(spawn, 15);
            let tokio_cell = text::right_aligned(tokio, 15);
            let last_cell = text::right_aligned(last, 12);
            &&& text::occurs_in(first_cell + " "@, whole)
            &&& text::occurs_in(" "@ + direct_cell + " "@, whole)
            &&& text::occurs_in(" "@ + spawn_cell + " "@, whole)
            &&& text::occurs_in(" "@ + tokio_cell + " "@, whole)
            &&& text::occurs_in(" "@ + last_cell + "\n"@, whole)
            &&& whole.len()
                == first_cell.len() + " "@.len() + direct_cell.len() + " "@.len()
                    + spawn_cell.len() + " "@.len() + tokio_cell.len() + " "@.len()
                    + last_cell.len() + "\n"@.len()
        }),
{
    let whole = wide_line(first, direct, spawn, tokio, last);
    let first_cell = text::right_aligned(first, 10);
    let direct_cell = text::right_aligned(direct, 15);
    let spawn_cell = text::right_aligned(spawn, 15);
    let tokio_cell = text::right_aligned(tokio, 15);
    let last_cell = text::right_aligned(last, 12);
    let t0 = first_cell;
    let t1 = t0 + " "@;
    let t2 = t1 + direct_cell;
    let t3 = t2 + " "@;
    let t4 = t3 + spawn_cell;
    let t5 = t4 + " "@;
    let t6 = t5 + tokio_cell;
    let t7 = t6 + " "@;
    let t8 = t7 + last_cell;
    let t9 = t8 + "\n"@;
    assert(t9 == whole);
    text::occurs_between(Seq::empty(), whole, Seq::empty());
    text::occurs_beginning(t8, "\n"@, whole);
    text::occurs_beginning(t7, last_cell, whole);
    text::occurs_beginning(t6, " "@, whole);
    text::occurs_beginning(t5, tokio_cell, whole);
    text::occurs_beginning(t4, " "@, whole);
    text::occurs_beginning(t3, spawn_cell, whole);
    text::occurs_beginning(t2, " "@, whole);
    text::occurs_beginning(t1, direct_cell, whole);
    text::occurs_end_of_three(t0, " "@, direct_cell, " "@, whole);
    text::occurs_end_of_three(t2, " "@, spawn_cell, " "@, whole);
    text::occurs_end_of_three(t4, " "@, tokio_cell, " "@, whole);
    text::occurs_end_of_three(t6, " "@, last_cell, "\n"@, whole);
}

/// A line of the reads per second has the number of databases, what is shown for direct blocking,
/// for the blocking threads and for the thread of each database, and the gain.
pub proof fn throughput_line_shows_each_approach(
    rows: Seq<Row<StoredMetrics>>,
    databases: nat,
    delay: nat,
    quotient: Seq<char>,
)
    ensures
        ({
            let whole = throughput_line(rows, databases, delay, quotient);
            let number = text::right_aligned(text::decimal(databases), 10);
            let direct = text::right_aligned(
                stored::throughput(rows, Approach::DirectBlocking, databases, delay).one_decimal,
                15,
            );
            let spawn = text::right_aligned(
                stored::throughput(rows, Approach::SpawnBlocking, databases, delay).one_decimal,
                15,
            );
            let tokio = text::right_aligned(
                stored::throughput(rows, Approach::TokioRusqlite, databases, delay).one_decimal,
                15,
            );
            let gained = text::right_aligned(gain(rows, databases, delay, quotient), 12);
            &&& text::occurs_in(number + " "@, whole)
            &&& text::occurs_in(" "@ + direct + " "@, whole)
            &&& text::occurs_in(" "@ + spawn + " "@, whole)
            &&& text::occurs_in(" "@ + tokio + " "@, whole)
            &&& text::occurs_in(" "@ + gained + "\n"@, whole)
            &&& whole.len()
                == number.len() + " "@.len() + direct.len() + " "@.len() + spawn.len() + " "@.len()
                    + tokio.len() + " "@.len() + gained.len() + "\n"@.len()
        }),
{
    let whole = throughput_line(rows, databases, delay, quotient);
    let number = text::right_aligned(text::decimal(databases), 10);
    let direct = text::right_aligned(
        stored::throughput(rows, Approach::DirectBlocking, databases, delay).one_decimal,
        15,
    );
    let spawn = text::right_aligned(
        stored::throughput(rows, Approach::SpawnBlocking, databases, delay).one_decimal,
        15,
    );
    let tokio = text::right_aligned(
        stored::throughput(rows, Approach::TokioRusqlite, databases, delay).one_decimal,
        15,
    );
    let gained = text::right_aligned(gain(rows, databases, delay, quotient), 12);
    let t0 = number;
    let t1 = t0 + " "@;
    let t2 = t1 + direct;
    let t3 = t2 + " "@;
    let t4 = t3 + spawn;
    let t5 = t4 + " "@;
    let t6 = t5 + tokio;
    let t7 = t6 + " "@;
    let t8 = t7 + gained;
    let t9 = t8 + "\n"@;
    assert(t9 == whole);
    text::occurs_between(Seq::empty(), whole, Seq::empty());
    text::occurs_beginning(t8, "\n"@, whole);
    text::occurs_beginning(t7, gained, whole);
    text::occurs_beginning(t6, " "@, whole);
    text::occurs_beginning(t5, tokio, whole);
    text::occurs_beginning(t4, " "@, whole);
    text::occurs_beginning(t3, spawn, whole);
    text::occurs_beginning(t2, " "@, whole);
    text::occurs_beginning(t1, direct, whole);
    text::occurs_end_of_three(t0, " "@, direct, " "@, whole);
    text::occurs_end_of_three(t2, " "@, spawn, " "@, whole);
    text::occurs_end_of_three(t4, " "@, tokio, " "@, whole);
    text::occurs_end_of_three(t6, " "@, gained, "\n"@, whole);
}

/// A line of the latencies has the number of databases, what is shown for direct blocking, for the
/// blocking threads and for the thread of each database, and which is best.
pub proof fn latency_line_shows_each_approach(
    rows: Seq<Row<StoredMetrics>>,
    databases: nat,
    delay: nat,
)
    ensures
        ({
            let whole = latency_line(rows, databases, delay);
            let number = text::right_aligned(text::decimal(databases), 10);
            let direct = text::right_aligned(
                latency::latency_name(
                    stored::p99(rows, Approach::DirectBlocking, databases, delay),
                ),
                15,
            );
            let spawn = text::right_aligned(
                latency::latency_name(stored::p99(rows, Approach::SpawnBlocking, databases, delay)),
                15,
            );
            let tokio = text::right_aligned(
                latency::latency_name(stored::p99(rows, Approach::TokioRusqlite, databases, delay)),
                15,
            );
            let best = text::right_aligned(
                best_label(
                    stored::p99(rows, Approach::DirectBlocking, databases, delay),
                    stored::p99(rows, Approach::SpawnBlocking, databases, delay),
                    stored::p99(rows, Approach::TokioRusqlite, databases, delay),
                ),
                12,
            );
            &&& text::occurs_in(number + " "@, whole)
            &&& text::occurs_in(" "@ + direct + " "@, whole)
            &&& text::occurs_in(" "@ + spawn + " "@, whole)
            &&& text::occurs_in(" "@ + tokio + " "@, whole)
            &&& text::occurs_in(" "@ + best + "\n"@, whole)
            &&& whole.len()
                == number.len() + " "@.len() + direct.len() + " "@.len() + spawn.len() + " "@.len()
                    + tokio.len() + " "@.len() + best.len() + "\n"@.len()
        }),
{
    let whole = latency_line(rows, databases, delay);
    let number = text::right_aligned(text::decimal(databases), 10);
    let direct = text::right_aligned(
        latency::latency_name(stored::p99(rows, Approach::DirectBlocking, databases, delay)),
        15,
    );
    let spawn = text::right_aligned(
        latency::latency_name(stored::p99(rows, Approach::SpawnBlocking, databases, delay)),
        15,
    );
    let tokio = text::right_aligned(
        latency::latency_name(stored::p99(rows, Approach::TokioRusqlite, databases, delay)),
        15,
    );
    let best = text::right_aligned(
        best_label(
            stored::p99(rows, Approach::DirectBlocking, databases, delay),
            stored::p99(rows, Approach::SpawnBlocking, databases, delay),
            stored::p99(rows, Approach::TokioRusqlite, databases, delay),
        ),
        12,
    );
    let t0 = number;
    let t1 = t0 + " "@;
    let t2 = t1 + direct;
    let t3 = t2 + " "@;
    let t4 = t3 + spawn;
    let t5 = t4 + " "@;
    let t6 = t5 + tokio;
    let t7 = t6 + " "@;
    let t8 = t7 + best;
    let t9 = t8 + "\n"@;
    assert(t9 == whole);
    text::occurs_between(Seq::empty(), whole, Seq::empty());
    text::occurs_beginning(t8, "\n"@, whole);
    text::occurs_beginning(t7, best, whole);
    text::occurs_beginning(t6, " "@, whole);
    text::occurs_beginning(t5, tokio, whole);
    text::occurs_beginning(t4, " "@, whole);
    text::occurs_beginning(t3, spawn, whole);
    text::occurs_beginning(t2, " "@, whole);
    text::occurs_beginning(t1, direct, whole);
    text::occurs_end_of_three(t0, " "@, direct, " "@, whole);
    text::occurs_end_of_three(t2, " "@, spawn, " "@, whole);
    text::occurs_end_of_three(t4, " "@, tokio, " "@, whole);
    text::occurs_end_of_three(t6, " "@, best, "\n"@, whole);
}

/// A table of the reads per second names the write delay and has its heads and its lines.
pub proof fn throughput_table_has_its_lines(
    rows: Seq<Row<StoredMetrics>>,
    databases: Seq<nat>,
    delay: nat,
    quotients: Seq<Seq<char>>,
)
    ensures
        ({
            let whole = throughput_table(rows, databases, delay, quotients);
            let name = delay::delay_name(delay);
            let head = heads("Best Gain"@);
            let lines = throughput_lines(rows, databases, delay, quotients);
            &&& text::occurs_in(
                "\n━━━ Read Throughput (req/sec) - "@ + name + " write delay ━━━\n\n"@,
                whole,
            )
            &&& text::occurs_in(" write delay ━━━\n\n"@ + head + lines, whole)
            &&& text::occurs_in(head + lines, whole)
            &&& whole.len()
                == "\n━━━ Read Throughput (req/sec) - "@.len() + name.len()
                    + " write delay ━━━\n\n"@.len() + head.len() + lines.len()
        }),
{
    let whole = throughput_table(rows, databases, delay, quotients);
    let name = delay::delay_name(delay);
    let head = heads("Best Gain"@);
    let lines = throughput_lines(rows, databases, delay, quotients);
    let t0 = "\n━━━ Read Throughput (req/sec) - "@;
    let t1 = t0 + name;
    let t2 = t1 + " write delay ━━━\n\n"@;
    let t3 = t2 + head;
    let t4 = t3 + lines;
    assert(t4 == whole);
    text::occurs_between(Seq::empty(), whole, Seq::empty());
    text::occurs_beginning(t3, lines, whole);
    text::occurs_beginning(t2, head, whole);
    text::occurs_beginning(t1, " write delay ━━━\n\n"@, whole);
    text::occurs_end_of_three(t1, " write delay ━━━\n\n"@, head, lines, whole);
    text::occurs_end_of_two(t2, head, lines, whole);
}

/// A table of the latencies names the write delay and has its heads and its lines.
pub proof fn latency_table_has_its_lines(
    rows: Seq<Row<StoredMetrics>>,
    databases: Seq<nat>,
    delay: nat,
)
    ensures
        ({
            let whole = latency_table(rows, databases, delay);
            let name = delay::delay_name(delay);
            let lines = latency_lines(rows, databases, delay);
            &&& text::occurs_in(
                "\n━━━ P99 Read Latency (ms) - "@ + name + " write delay ━━━\n\n"@,
                whole,
            )
            &&& text::occurs_in(" write delay ━━━\n\n"@ + heads("Best"@) + lines, whole)
            &&& text::occurs_in(heads("Best"@) + lines, whole)
            &&& whole.len()
                == "\n━━━ P99 Read Latency (ms) - "@.len() + name.len()
                    + " write delay ━━━\n\n"@.len() + heads("Best"@).len() + lines.len()
        }),
{
    let whole = latency_table(rows, databases, delay);
    let name = delay::delay_name(delay);
    let lines = latency_lines(rows, databases, delay);
    let t0 = "\n━━━ P99 Read Latency (ms) - "@;
    let t1 = t0 + name;
    let t2 = t1 + " write delay ━━━\n\n"@;
    let t3 = t2 + heads("Best"@);
    let t4 = t3 + lines;
    assert(t4 == whole);
    text::occurs_between(Seq::empty(), whole, Seq::empty());
    text::occurs_beginning(t3, lines, whole);
    text::occurs_beginning(t2, heads("Best"@), whole);
    text::occurs_beginning(t1, " write delay ━━━\n\n"@, whole);
    text::occurs_end_of_three(t1, " write delay ━━━\n\n"@, heads("Best"@), lines, whole);
    text::occurs_end_of_two(t2, heads("Best"@), lines, whole);
}

/// All tables are the title, those of the reads per second and those of the latencies.
pub proof fn summary_has_both_kinds_of_tables(
    rows: Seq<Row<StoredMetrics>>,
    delays: Seq<nat>,
    databases: Seq<nat>,
    quotients: Seq<Seq<char>>,
)
    ensures
        ({
            let whole = summary_tables(rows, delays, databases, quotients);
            let first = throughput_tables(rows, delays, databases, quotients);
            let second = latency_tables(rows, delays, databases);
            &&& text::occurs_in(TITLE@ + first + second, whole)
            &&& text::occurs_in(first + second, whole)
            &&& whole.len() == TITLE@.len() + first.len() + second.len()
        }),
{
    let whole = summary_tables(rows, delays, databases, quotients);
    let first = throughput_tables(rows, delays, databases, quotients);
    let second = latency_tables(rows, delays, databases);
    let t0 = TITLE@;
    let t1 = t0 + first;
    let t2 = t1 + second;
    assert(t2 == whole);
    text::occurs_between(Seq::empty(), whole, Seq::empty());
    text::occurs_beginning(t1, second, whole);
    text::occurs_end_of_two(t0, first, second, whole);
}

/// The gain is the quotient with an `x` behind it exactly where the first row of direct blocking in
/// the scenario has a rank above zero, and otherwise the sign for what is without bound.
pub proof fn gain_is_the_quotient_where_direct_reads(
    rows: Seq<Row<StoredMetrics>>,
    databases: nat,
    delay: nat,
    quotient: Seq<char>,
    i: int,
)
    ensures
        rows::is_first_match(rows, i, "direct_blocking"@, databases, delay) && (
        rows[i].metrics.throughput_rank matches Some(r) && r > 0) ==> gain(
            rows,
            databases,
            delay,
            quotient,
        ) == quotient + "x"@,
        rows::is_first_match(rows, i, "direct_blocking"@, databases, delay) && !(
        rows[i].metrics.throughput_rank matches Some(r) && r > 0) ==> gain(
            rows,
            databases,
            delay,
            quotient,
        ) == "∞"@,
        rows::has_no_match(rows, "direct_blocking"@, databases, delay) ==> gain(
            rows,
            databases,
            delay,
            quotient,
        ) == "∞"@,
        gain(rows, databases, delay, quotient) == quotient + "x"@ <==> exists|k: int| #[trigger]
            rows::is_first_match(rows, k, "direct_blocking"@, databases, delay) && (
            rows[k].metrics.throughput_rank matches Some(r) && r > 0),
{
    reveal_strlit("x");
    reveal_strlit("∞");
    let name = Approach::DirectBlocking.name();
    let found = stored::source(rows, Approach::DirectBlocking, databases, delay);
    assert forall|k: int| #[trigger]
        rows::is_first_match(rows, k, name, databases, delay) <==> found == Some(k) by {
        rows::search_goes_by_every_field(rows, name, databases, delay, k);
    }
    rows::search_goes_by_every_field(rows, name, databases, delay, i);
    if found is Some {
        assert(rows::is_first_match(rows, found->0, name, databases, delay));
    }
    assert((quotient + "x"@).last() == 'x');
    assert("∞"@.last() == '∞');
}

/// One more number of databases adds one line to each table, and one more write delay adds one
/// table of each kind.
pub proof fn tables_grow_by_one(
    rows: Seq<Row<StoredMetrics>>,
    delays: Seq<nat>,
    databases: Seq<nat>,
    quotients: Seq<Seq<char>>,
    delay: nat,
    count: nat,
)
    ensures
        throughput_lines(rows, Seq::empty(), delay, quotients) == Seq::<char>::empty(),
        throughput_lines(rows, databases.push(count), delay, quotients) == throughput_lines(
            rows,
            databases,
            delay,
            quotients,
        ) + throughput_line(rows, count, delay, quotients[databases.len() as int]),
        latency_lines(rows, Seq::empty(), delay) == Seq::<char>::empty(),
        latency_lines(rows, databases.push(count), delay) == latency_lines(rows, databases, delay)
            + latency_line(rows, count, delay),
        throughput_tables(rows, Seq::empty(), databases, quotients) == Seq::<char>::empty(),
        throughput_tables(rows, delays.push(delay), databases, quotients) == throughput_tables(
            rows,
            delays,
            databases,
            quotients,
        ) + throughput_table(
            rows,
            databases,
            delay,
            quotients.skip((delays.len() * databases.len()) as int),
        ),
        latency_tables(rows, Seq::empty(), databases) == Seq::<char>::empty(),
        latency_tables(rows, delays.push(delay), databases) == latency_tables(
            rows,
            delays,
            databases,
        ) + latency_table(rows, databases, delay),
{
    assert(databases.push(count).drop_last() =~= databases);
    assert(delays.push(delay).drop_last() =~= delays);
}

/// The heads of the columns are those of a line, with a rule of seventy characters below.
pub proof fn heads_stand_over_a_rule(last: Seq<char>)
    ensures
        text::occurs_in(
            wide_line("DBs"@, "Direct"@, "spawn_block"@, "tokio-rsql"@, last),
            heads(last),
        ),
        heads(last).len() == wide_line(
            "DBs"@,
            "Direct"@,
            "spawn_block"@,
            "tokio-rsql"@,
            last,
        ).len() + 71,
        forall|i: int|
            heads(last).len() - 71 <= i < heads(last).len() - 1 ==> #[trigger] heads(last)[i]
                == '─',
{
    let line = wide_line("DBs"@, "Direct"@, "spawn_block"@, "tokio-rsql"@, last);
    reveal_strlit("─");
    assert("─"@ =~= seq!['─']);
    text::occurs_between(Seq::empty(), line, ascii::rule("─"@, 70));
    ascii::rule_is_one_line('─', 70, 0);
    let below = ascii::rule("─"@, 70);
    assert forall|i: int|
        heads(last).len() - 71 <= i < heads(last).len() - 1 implies #[trigger] heads(last)[i]
        == '─' by {
        ascii::rule_is_one_line('─', 70, i - line.len());
        assert(heads(last)[i] == below[i - line.len()]);
    }
}

/// The five columns follow one another with one space between.
pub proof fn wide_columns_stand_side_by_side(
    first: Seq<char>,
    direct: Seq<char>,
    spawn: Seq<char>,
    tokio: Seq<char>,
    last: Seq<char>,
)
    ensures
        ({
            let whole = wide_line(first, direct, spawn, tokio, last);
            let number = text::right_aligned(first, 10);
            let direct_cell = text::right_aligned(direct, 15);
            let spawn_cell = text::right_aligned(spawn, 15);
            let tokio_cell = text::right_aligned(tokio, 15);
            let last_cell = text::right_aligned(last, 12);
            let number_end = number.len();
            let direct_cell_end = number_end + 1 + direct_cell.len();
            let spawn_cell_end = direct_cell_end + 1 + spawn_cell.len();
            let tokio_cell_end = spawn_cell_end + 1 + tokio_cell.len();
            let last_cell_end = tokio_cell_end + 1 + last_cell.len();
            &&& whole.subrange(0, number_end as int) == number
            &&& whole.subrange((number_end + 1) as int, direct_cell_end as int) == direct_cell
            &&& whole.subrange((direct_cell_end + 1) as int, spawn_cell_end as int) == spawn_cell
            &&& whole.subrange((spawn_cell_end + 1) as int, tokio_cell_end as int) == tokio_cell
            &&& whole.subrange((tokio_cell_end + 1) as int, last_cell_end as int) == last_cell
            &&& whole.len() == last_cell_end + 1
        }),
{
    reveal_strlit(" ");
    reveal_strlit("\n");
    let whole = wide_line(first, direct, spawn, tokio, last);
    let number = text::right_aligned(first, 10);
    let direct_cell = text::right_aligned(direct, 15);
    let spawn_cell = text::right_aligned(spawn, 15);
    let tokio_cell = text::right_aligned(tokio, 15);
    let last_cell = text::right_aligned(last, 12);
    let number_end = number.len();
    let direct_cell_end = number_end + 1 + direct_cell.len();
    let spawn_cell_end = direct_cell_end + 1 + spawn_cell.len();
    let tokio_cell_end = spawn_cell_end + 1 + tokio_cell.len();
    let last_cell_end = tokio_cell_end + 1 + last_cell.len();
    assert(whole.subrange(0, number_end as int) =~= number);
    assert(whole.subrange((number_end + 1) as int, direct_cell_end as int) =~= direct_cell);
    assert(whole.subrange((direct_cell_end + 1) as int, spawn_cell_end as int) =~= spawn_cell);
    assert(whole.subrange((spawn_cell_end + 1) as int, tokio_cell_end as int) =~= tokio_cell);
    assert(whole.subrange((tokio_cell_end + 1) as int, last_cell_end as int) =~= last_cell);
}

/// On a line of the reads per second the number of databases comes first, then direct blocking, the
/// blocking threads, the thread of each database and the gain.
pub proof fn throughput_cells_stand_in_order(
    rows: Seq<Row<StoredMetrics>>,
    databases: nat,
    delay: nat,
    quotient: Seq<char>,
)
    ensures
        ({
            let whole = throughput_line(rows, databases, delay, quotient);
            let number = text::right_aligned(text::decimal(databases), 10);
            let direct_cell = text::right_aligned(
                stored::throughput(rows, Approach::DirectBlocking, databases, delay).one_decimal,
                15,
            );
            let spawn_cell = text::right_aligned(
                stored::throughput(rows, Approach::SpawnBlocking, databases, delay).one_decimal,
                15,
            );
            let tokio_cell = text::right_aligned(
                stored::throughput(rows, Approach::TokioRusqlite, databases, delay).one_decimal,
                15,
            );
            let last_cell = text::right_aligned(gain(rows, databases, delay, quotient), 12);
            let number_end = number.len();
            let direct_cell_end = number_end + 1 + direct_cell.len();
            let spawn_cell_end = direct_cell_end + 1 + spawn_cell.len();
            let tokio_cell_end = spawn_cell_end + 1 + tokio_cell.len();
            let last_cell_end = tokio_cell_end + 1 + last_cell.len();
            &&& whole.subrange(0, number_end as int) == number
            &&& whole.subrange((number_end + 1) as int, direct_cell_end as int) == direct_cell
            &&& whole.subrange((direct_cell_end + 1) as int, spawn_cell_end as int) == spawn_cell
            &&& whole.subrange((spawn_cell_end + 1) as int, tokio_cell_end as int) == tokio_cell
            &&& whole.subrange((tokio_cell_end + 1) as int, last_cell_end as int) == last_cell
            &&& whole.len() == last_cell_end + 1
        }),
{
    reveal_strlit(" ");
    reveal_strlit("\n");
    let whole = throughput_line(rows, databases, delay, quotient);
    let number = text::right_aligned(text::decimal(databases), 10);
    let direct_cell = text::right_aligned(
        stored::throughput(rows, Approach::DirectBlocking, databases, delay).one_decimal,
        15,
    );
    let spawn_cell = text::right_aligned(
        stored::throughput(rows, Approach::SpawnBlocking, databases, delay).one_decimal,
        15,
    );
    let tokio_cell = text::right_aligned(
        stored::throughput(rows, Approach::TokioRusqlite, databases, delay).one_decimal,
        15,
    );
    let last_cell = text::right_aligned(gain(rows, databases, delay, quotient), 12);
    let number_end = number.len();
    let direct_cell_end = number_end + 1 + direct_cell.len();
    let spawn_cell_end = direct_cell_end + 1 + spawn_cell.len();
    let tokio_cell_end = spawn_cell_end + 1 + tokio_cell.len();
    let last_cell_end = tokio_cell_end + 1 + last_cell.len();
    assert(whole.subrange(0, number_end as int) =~= number);
    assert(whole.subrange((number_end + 1) as int, direct_cell_end as int) =~= direct_cell);
    assert(whole.subrange((direct_cell_end + 1) as int, spawn_cell_end as int) =~= spawn_cell);
    assert(whole.subrange((spawn_cell_end + 1) as int, tokio_cell_end as int) =~= tokio_cell);
    assert(whole.subrange((tokio_cell_end + 1) as int, last_cell_end as int) =~= last_cell);
}

/// On a line of the latencies the number of databases comes first, then direct blocking, the blocking
/// threads, the thread of each database and which is best.
pub proof fn latency_cells_stand_in_order(
    rows: Seq<Row<StoredMetrics>>,
    databases: nat,
    delay: nat,
)
    ensures
        ({
            let whole = latency_line(rows, databases, delay);
            let number = text::right_aligned(text::decimal(databases), 10);
            let direct_cell = text::right_aligned(
                latency::latency_name(
                    stored::p99(rows, Approach::DirectBlocking, databases, delay),
                ),
                15,
            );
            let spawn_cell = text::right_aligned(
                latency::latency_name(stored::p99(rows, Approach::SpawnBlocking, databases, delay)),
                15,
            );
            let tokio_cell = text::right_aligned(
                latency::latency_name(stored::p99(rows, Approach::TokioRusqlite, databases, delay)),
                15,
            );
            let last_cell = text::right_aligned(
                best_label(
                    stored::p99(rows, Approach::DirectBlocking, databases, delay),
                    stored::p99(rows, Approach::SpawnBlocking, databases, delay),
                    stored::p99(rows, Approach::TokioRusqlite, databases, delay),
                ),
                12,
            );
            let number_end = number.len();
            let direct_cell_end = number_end + 1 + direct_cell.len();
            let spawn_cell_end = direct_cell_end + 1 + spawn_cell.len();
            let tokio_cell_end = spawn_cell_end + 1 + tokio_cell.len();
            let last_cell_end = tokio_cell_end + 1 + last_cell.len();
            &&& whole.subrange(0, number_end as int) == number
            &&& whole.subrange((number_end + 1) as int, direct_cell_end as int) == direct_cell
            &&& whole.subrange((direct_cell_end + 1) as int, spawn_cell_end as int) == spawn_cell
            &&& whole.subrange((spawn_cell_end + 1) as int, tokio_cell_end as int) == tokio_cell
            &&& whole.subrange((tokio_cell_end + 1) as int, last_cell_end as int) == last_cell
            &&& whole.len() == last_cell_end + 1
        }),
{
    reveal_strlit(" ");
    reveal_strlit("\n");
    let whole = latency_line(rows, databases, delay);
    let number = text::right_aligned(text::decimal(databases), 10);
    let direct_cell = text::right_aligned(
        latency::latency_name(stored::p99(rows, Approach::DirectBlocking, databases, delay)),
        15,
    );
    let spawn_cell = text::right_aligned(
        latency::latency_name(stored::p99(rows, Approach::SpawnBlocking, databases, delay)),
        15,
    );
    let tokio_cell = text::right_aligned(
        latency::latency_name(stored::p99(rows, Approach::TokioRusqlite, databases, delay)),
        15,
    );
    let last_cell = text::right_aligned(
        best_label(
            stored::p99(rows, Approach::DirectBlocking, databases, delay),
            stored::p99(rows, Approach::SpawnBlocking, databases, delay),
            stored::p99(rows, Approach::TokioRusqlite, databases, delay),
        ),
        12,
    );
    let number_end = number.len();
    let direct_cell_end = number_end + 1 + direct_cell.len();
    let spawn_cell_end = direct_cell_end + 1 + spawn_cell.len();
    let tokio_cell_end = spawn_cell_end + 1 + tokio_cell.len();
    let last_cell_end = tokio_cell_end + 1 + last_cell.len();
    assert(whole.subrange(0, number_end as int) =~= number);
    assert(whole.subrange((number_end + 1) as int, direct_cell_end as int) =~= direct_cell);
    assert(whole.subrange((direct_cell_end + 1) as int, spawn_cell_end as int) =~= spawn_cell);
    assert(whole.subrange((spawn_cell_end + 1) as int, tokio_cell_end as int) =~= tokio_cell);
    assert(whole.subrange((tokio_cell_end + 1) as int, last_cell_end as int) =~= last_cell);
}

} // verus!
