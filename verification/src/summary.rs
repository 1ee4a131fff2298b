//! The benchmark's summary in Markdown.

use crate::approach::Approach;
use crate::delay;
use crate::metrics;
use crate::metrics::{get_value, Metric, RunMetrics};
use crate::plan::Config;
use crate::rows::Row;
use crate::text;
use vstd::prelude::*;

verus! {

// ---------------------------------------------------------------------------
// Fixed text
// ---------------------------------------------------------------------------

/// The title.
pub const TITLE: &'static str = "# SQLite Async Benchmark Results\n\nGenerated: ";

/// The head of the table of settings.
pub const CONFIGURATION: &'static str = "\n\n## Configuration\n\n| Parameter | Value |\n|-----------|-------|\n";

/// How the results are to be read.
pub const INSIGHT: &'static str = "\n## Key Insight: Write Completion Ratio\n\nThe **write completion ratio** shows what percentage of expected writes actually completed.\nA low ratio indicates worker thread starvation in direct blocking mode.\n\n";

/// The head of each table of results.
pub const TABLE_HEAD: &'static str = "\n\n| DBs | Direct Blocking | spawn_blocking | tokio-rusqlite |\n|-----|-----------------|----------------|----------------|\n";

/// What follows from the results.
pub const ANALYSIS: &'static str = "## Analysis\n\n### Why Direct Blocking Shows High Read Throughput\n\nWhen direct blocking has a **low write completion ratio** (e.g., 2% of expected writes),\nit means writer tasks are starving for worker threads. The reads that DO complete\nare opportunistic - they grab the lock during brief windows when writers are\nwaiting for thread scheduling.\n\nThis is **not** better performance - it's a symptom of broken concurrency!\n\n### Recommendation\n\n- **tokio-rusqlite** provides the most predictable latency and fair scheduling\n- **spawn_blocking** is a good improvement over direct blocking\n- **direct_blocking** should be avoided for long-running operations\n";

/// What a table of a metric says in its own words.
impl Metric {
    /// The heading above the table.
    pub open spec fn table_heading(self) -> Seq<char> {
        match self {
            Metric::WriteCompletion => "### Write Completion (Starvation Indicator)"@,
            Metric::ReadThroughput => "### Read Throughput (requests/sec)"@,
            Metric::P99ReadLatency => "### P99 Read Latency (ms)"@,
        }
    }

    /// What follows each number.
    pub open spec fn sign(self) -> Seq<char> {
        match self {
            Metric::WriteCompletion => "%"@,
            Metric::ReadThroughput => ""@,
            Metric::P99ReadLatency => ""@,
        }
    }

    /// The heading above the table.
    fn table_heading_text(self) -> (s: &'static str)
        ensures
            s@ == self.table_heading(),
    {
        match self {
            Metric::WriteCompletion => "### Write Completion (Starvation Indicator)",
            Metric::ReadThroughput => "### Read Throughput (requests/sec)",
            Metric::P99ReadLatency => "### P99 Read Latency (ms)",
        }
    }

    /// What follows each number.
    fn sign_text(self) -> (s: &'static str)
        ensures
            s@ == self.sign(),
    {
        match self {
            Metric::WriteCompletion => "%",
            Metric::ReadThroughput => "",
            Metric::P99ReadLatency => "",
        }
    }
}

// ---------------------------------------------------------------------------
// Tables
// ---------------------------------------------------------------------------

/// One line of a table: a number of databases and the figure of each approach.
pub open spec fn table_line(
    rows: Seq<Row<RunMetrics>>,
    metric: Metric,
    delay: nat,
    databases: nat,
) -> Seq<char> {
    let direct = metrics::value_of(rows, Approach::DirectBlocking, databases, delay, metric);
    let spawn = metrics::value_of(rows, Approach::SpawnBlocking, databases, delay, metric);
    let tokio = metrics::value_of(rows, Approach::TokioRusqlite, databases, delay, metric);
    "| "@ + text::decimal(databases) + " | "@ + direct.one_decimal + metric.sign() + " | "@
        + spawn.one_decimal + metric.sign() + " | "@ + tokio.one_decimal + metric.sign() + " |\n"@
}

/// The lines of a table, one for each number of databases in turn.
pub open spec fn table_lines(
    rows: Seq<Row<RunMetrics>>,
    metric: Metric,
    delay: nat,
    databases: Seq<usize>,
) -> Seq<char>
    decreases databases.len(),
{
    if databases.len() == 0 {
        Seq::empty()
    } else {
        table_lines(rows, metric, delay, databases.drop_last()) + table_line(
            rows,
            metric,
            delay,
            databases.last() as nat,
        )
    }
}

/// The table of one metric for one write delay.
pub open spec fn table(
    rows: Seq<Row<RunMetrics>>,
    metric: Metric,
    delay: nat,
    databases: Seq<usize>,
) -> Seq<char> {
    metric.table_heading() + TABLE_HEAD@ + table_lines(rows, metric, delay, databases) + "\n"@
}

/// What the summary says of one write delay.
pub open spec fn section(
    rows: Seq<Row<RunMetrics>>,
    delay: nat,
    databases: Seq<usize>,
) -> Seq<char> {
    "## Results for "@ + delay::delay_name(delay) + " write delay\n\n"@ + table(
        rows,
        Metric::WriteCompletion,
        delay,
        databases,
    ) + table(rows, Metric::ReadThroughput, delay, databases) + table(
        rows,
        Metric::P99ReadLatency,
        delay,
        databases,
    )
}

/// What the summary says of each write delay in turn.
pub open spec fn sections(
    rows: Seq<Row<RunMetrics>>,
    delays: Seq<u64>,
    databases: Seq<usize>,
) -> Seq<char>
    decreases delays.len(),
{
    if delays.len() == 0 {
        Seq::empty()
    } else {
        sections(rows, delays.drop_last(), databases) + section(
            rows,
            delays.last() as nat,
            databases,
        )
    }
}

/// The table of settings.
pub open spec fn settings(config: Config) -> Seq<char> {
    CONFIGURATION@ + "| Worker threads | "@ + text::decimal(config.worker_threads as nat)
        + " |\n| Readers per DB | "@ + text::decimal(config.readers_per_db as nat)
        + " |\n| Test duration | "@ + text::decimal(config.duration as nat)
        + " seconds |\n| Database counts | "@ + text::bracketed(
        text::count_decimals(config.num_databases@),
    ) + " |\n| Write delays (ms) | "@ + text::bracketed(text::decimals(config.write_delays@))
        + " |\n"@
}

/// The summary of a run that was written at `moment`.
pub open spec fn summary(
    moment: Seq<char>,
    config: Config,
    rows: Seq<Row<RunMetrics>>,
) -> Seq<char> {
    TITLE@ + moment + settings(config) + INSIGHT@ + sections(
        rows,
        config.write_delays@,
        config.num_databases@,
    ) + ANALYSIS@
}

/// Writes one line of a table.
fn write_table_line(
    rows: &Vec<Row<RunMetrics>>,
    metric: Metric,
    delay: u64,
    databases: usize,
) -> (s: String)
    ensures
        s@ == table_line(rows@, metric, delay as nat, databases as nat),
{
    let number = text::decimal_text(databases as u64);
    let direct = get_value(rows, Approach::DirectBlocking, databases as u64, delay, metric);
    let spawn = get_value(rows, Approach::SpawnBlocking, databases as u64, delay, metric);
    let tokio = get_value(rows, Approach::TokioRusqlite, databases as u64, delay, metric);
    let mut s = String::from_str("| ");
    s.append(number.as_str());
    s.append(" | ");
    s.append(direct.one_decimal.as_str());
    s.append(metric.sign_text());
    s.append(" | ");
    s.append(spawn.one_decimal.as_str());
    s.append(metric.sign_text());
    s.append(" | ");
    s.append(tokio.one_decimal.as_str());
    s.append(metric.sign_text());
    s.append(" |\n");
    s
}

/// Writes the table of one metric for one write delay.
fn write_table(
    rows: &Vec<Row<RunMetrics>>,
    metric: Metric,
    delay: u64,
    databases: &Vec<usize>,
) -> (s: String)
    ensures
        s@ == table(rows@, metric, delay as nat, databases@),
{
    let mut lines = String::new();
    let mut i: usize = 0;
    while i < databases.len()
        invariant
            i <= databases@.len(),
            lines@ == table_lines(rows@, metric, delay as nat, databases@.take(i as int)),
        decreases databases.len() - i,
    {
        assert(databases@.take(i + 1).drop_last() =~= databases@.take(i as int));
        let line = write_table_line(rows, metric, delay, databases[i]);
        lines.append(line.as_str());
        i = i + 1;
    }
    assert(databases@.take(databases@.len() as int) =~= databases@);
    let mut s = String::from_str(metric.table_heading_text());
    s.append(TABLE_HEAD);
    s.append(lines.as_str());
    s.append("\n");
    s
}

/// Writes what the summary says of one write delay.
fn write_section(rows: &Vec<Row<RunMetrics>>, delay: u64, databases: &Vec<usize>) -> (s: String)
    ensures
        s@ == section(rows@, delay as nat, databases@),
{
    let name = delay::format_delay(delay);
    let completion = write_table(rows, Metric::WriteCompletion, delay, databases);
    let throughput = write_table(rows, Metric::ReadThroughput, delay, databases);
    let latency = write_table(rows, Metric::P99ReadLatency, delay, databases);
    let mut s = String::from_str("## Results for ");
    s.append(name.as_str());
    s.append(" write delay\n\n");
    s.append(completion.as_str());
    s.append(throughput.as_str());
    s.append(latency.as_str());
    s
}

/// Writes the table of settings.
fn write_settings(config: &Config) -> (s: String)
    ensures
        s@ == settings(*config),
{
    let workers = text::decimal_text(config.worker_threads as u64);
    let readers = text::decimal_text(config.readers_per_db as u64);
    let duration = text::decimal_text(config.duration);
    let databases = text::count_list(&config.num_databases);
    let delays = text::number_list(&config.write_delays);
    let mut s = String::from_str(CONFIGURATION);
    s.append("| Worker threads | ");
    s.append(workers.as_str());
    s.append(" |\n| Readers per DB | ");
    s.append(readers.as_str());
    s.append(" |\n| Test duration | ");
    s.append(duration.as_str());
    s.append(" seconds |\n| Database counts | ");
    s.append(databases.as_str());
    s.append(" |\n| Write delays (ms) | ");
    s.append(delays.as_str());
    s.append(" |\n");
    s
}

/// The summary of a run: its settings, and for each write delay asked for a table of each metric
/// with a line for each number of databases asked for.
pub fn write_summary(moment: &str, config: &Config, rows: &Vec<Row<RunMetrics>>) -> (s: String)
    ensures
        s@ == summary(moment@, *config, rows@),
{
    let settings = write_settings(config);
    let mut all = String::new();
    let mut i: usize = 0;
    let delays = &config.write_delays;
    while i < delays.len()
        invariant
            i <= delays@.len(),
            delays == &config.write_delays,
            all@ == sections(rows@, delays@.take(i as int), config.num_databases@),
        decreases delays.len() - i,
    {
        assert(delays@.take(i + 1).drop_last() =~= delays@.take(i as int));
        let section = write_section(rows, delays[i], &config.num_databases);
        all.append(section.as_str());
        i = i + 1;
    }
    assert(delays@.take(delays@.len() as int) =~= delays@);
    let mut s = String::from_str(TITLE);
    s.append(moment);
    s.append(settings.as_str());
    s.append(INSIGHT);
    s.append(all.as_str());
    s.append(ANALYSIS);
    s
}

// ---------------------------------------------------------------------------
// Laws
// ---------------------------------------------------------------------------

/// Each number of databases has its line in a table.
proof fn table_holds_line(
    rows: Seq<Row<RunMetrics>>,
    metric: Metric,
    delay: nat,
    databases: Seq<usize>,
    d: int,
)
    requires
        0 <= d < databases.len(),
    ensures
        text::occurs_in(
            table_line(rows, metric, delay, databases[d] as nat),
            table_lines(rows, metric, delay, databases),
        ),
    decreases databases.len(),
{
    let line = table_line(rows, metric, delay, databases[d] as nat);
    let front = databases.drop_last();
    let head = table_lines(rows, metric, delay, front);
    let tail = table_line(rows, metric, delay, databases.last() as nat);
    if d == front.len() {
        text::occurs_between(head, line, Seq::empty());
    } else {
        table_holds_line(rows, metric, delay, front, d);
        text::occurs_between(Seq::empty(), head, tail);
        text::occurs_through(line, head, head + tail);
    }
}

/// Each write delay has its section.
proof fn sections_hold_section(
    rows: Seq<Row<RunMetrics>>,
    delays: Seq<u64>,
    databases: Seq<usize>,
    w: int,
)
    requires
        0 <= w < delays.len(),
    ensures
        text::occurs_in(
            section(rows, delays[w] as nat, databases),
            sections(rows, delays, databases),
        ),
    decreases delays.len(),
{
    let own = section(rows, delays[w] as nat, databases);
    let front = delays.drop_last();
    let head = sections(rows, front, databases);
    let tail = section(rows, delays.last() as nat, databases);
    if w == front.len() {
        text::occurs_between(head, own, Seq::empty());
    } else {
        sections_hold_section(rows, front, databases, w);
        text::occurs_between(Seq::empty(), head, tail);
        text::occurs_through(own, head, head + tail);
    }
}

/// A section has a table of each metric.
proof fn section_holds_table(
    rows: Seq<Row<RunMetrics>>,
    metric: Metric,
    delay: nat,
    databases: Seq<usize>,
)
    ensures
        text::occurs_in(table(rows, metric, delay, databases), section(rows, delay, databases)),
{
    let head = "## Results for "@ + delay::delay_name(delay) + " write delay\n\n"@;
    let first = table(rows, Metric::WriteCompletion, delay, databases);
    let second = table(rows, Metric::ReadThroughput, delay, databases);
    let third = table(rows, Metric::P99ReadLatency, delay, databases);
    let whole = section(rows, delay, databases);
    match metric {
        Metric::WriteCompletion => {
            text::occurs_between(head, first, second + third);
            assert(whole =~= head + first + (second + third));
        },
        Metric::ReadThroughput => {
            text::occurs_between(head + first, second, third);
        },
        Metric::P99ReadLatency => {
            text::occurs_between(head + first + second, third, Seq::empty());
        },
    }
}

/// The summary shows every metric of every scenario that was asked for: the line with the figures
/// of the three approaches occurs in it.
pub proof fn summary_shows_every_scenario(
    moment: Seq<char>,
    config: Config,
    rows: Seq<Row<RunMetrics>>,
    metric: Metric,
    w: int,
    d: int,
)
    requires
        0 <= w < config.write_delays@.len(),
        0 <= d < config.num_databases@.len(),
    ensures
        text::occurs_in(
            table_line(
                rows,
                metric,
                config.write_delays@[w] as nat,
                config.num_databases@[d] as nat,
            ),
            summary(moment, config, rows),
        ),
{
    let delay = config.write_delays@[w] as nat;
    let databases = config.num_databases@;
    let line = table_line(rows, metric, delay, databases[d] as nat);
    let lines = table_lines(rows, metric, delay, databases);
    let own_table = table(rows, metric, delay, databases);
    let own_section = section(rows, delay, databases);
    let all = sections(rows, config.write_delays@, databases);
    let whole = summary(moment, config, rows);
    table_holds_line(rows, metric, delay, databases, d);
    text::occurs_between(metric.table_heading() + TABLE_HEAD@, lines, "\n"@);
    text::occurs_through(line, lines, own_table);
    section_holds_table(rows, metric, delay, databases);
    text::occurs_through(line, own_table, own_section);
    sections_hold_section(rows, config.write_delays@, databases, w);
    text::occurs_through(line, own_section, all);
    text::occurs_between(TITLE@ + moment + settings(config) + INSIGHT@, all, ANALYSIS@);
    text::occurs_through(line, all, whole);
}

/// A line of a table has the number of databases, then what is shown for direct blocking, for the
/// blocking threads and for the thread of each database, each with the sign of the metric.
pub proof fn table_line_shows_each_approach(
    rows: Seq<Row<RunMetrics>>,
    metric: Metric,
    delay: nat,
    databases: nat,
)
    ensures
        ({
            let whole = table_line(rows, metric, delay, databases);
            let number = text::decimal(databases);
            let direct = metrics::value_of(
                rows,
                Approach::DirectBlocking,
                databases,
                delay,
                metric,
            ).one_decimal;
            let spawn = metrics::value_of(
                rows,
                Approach::SpawnBlocking,
                databases,
                delay,
                metric,
            ).one_decimal;
            let tokio = metrics::value_of(
                rows,
                Approach::TokioRusqlite,
                databases,
                delay,
                metric,
            ).one_decimal;
            &&& text::occurs_in("| "@ + number + " | "@, whole)
            &&& text::occurs_in(" | "@ + direct + metric.sign(), whole)
            &&& text::occurs_in(" | "@ + spawn + metric.sign(), whole)
            &&& text::occurs_in(" | "@ + tokio + metric.sign(), whole)
            &&& whole.len()
                == "| "@.len() + number.len() + " | "@.len() + direct.len() + metric.sign().len()
                    + " | "@.len() + spawn.len() + metric.sign().len() + " | "@.len()
                    + tokio.len() + metric.sign().len() + " |\n"@.len()
        }),
{
    let whole = table_line(rows, metric, delay, databases);
    let number = text::decimal(databases);
    let direct = metrics::value_of(
        rows,
        Approach::DirectBlocking,
        databases,
        delay,
        metric,
    ).one_decimal;
    let spawn = metrics::value_of(
        rows,
        Approach::SpawnBlocking,
        databases,
        delay,
        metric,
    ).one_decimal;
    let tokio = metrics::value_of(
        rows,
        Approach::TokioRusqlite,
        databases,
        delay,
        metric,
    ).one_decimal;
    let t0 = "| "@;
    let t1 = t0 + number;
    let t2 = t1 + " | "@;
    let t3 = t2 + direct;
    let t4 = t3 + metric.sign();
    let t5 = t4 + " | "@;
    let t6 = t5 + spawn;
    let t7 = t6 + metric.sign();
    let t8 = t7 + " | "@;
    let t9 = t8 + tokio;
    let t10 = t9 + metric.sign();
    let t11 = t10 + " |\n"@;
    assert(t11 == whole);
    text::occurs_between(Seq::empty(), whole, Seq::empty());
    text::occurs_beginning(t10, " |\n"@, whole);
    text::occurs_beginning(t9, metric.sign(), whole);
    text::occurs_beginning(t8, tokio, whole);
    text::occurs_beginning(t7, " | "@, whole);
    text::occurs_beginning(t6, metric.sign(), whole);
    text::occurs_beginning(t5, spawn, whole);
    text::occurs_beginning(t4, " | "@, whole);
    text::occurs_beginning(t3, metric.sign(), whole);
    text::occurs_beginning(t2, direct, whole);
    text::occurs_beginning(t1, " | "@, whole);
    text::occurs_end_of_three(t1, " | "@, direct, metric.sign(), whole);
    text::occurs_end_of_three(t4, " | "@, spawn, metric.sign(), whole);
    text::occurs_end_of_three(t7, " | "@, tokio, metric.sign(), whole);
}

/// The table of settings has each setting behind its name.
pub proof fn settings_are_listed(
    config: Config,
)
    ensures
        ({
            let whole = settings(config);
            let workers_text = text::decimal(config.worker_threads as nat);
            let readers_text = text::decimal(config.readers_per_db as nat);
            let duration_text = text::decimal(config.duration as nat);
            let counts = text::bracketed(text::count_decimals(config.num_databases@));
            let delays = text::bracketed(text::decimals(config.write_delays@));
            &&& text::occurs_in(
                "| Worker threads | "@ + workers_text + " |\n| Readers per DB | "@,
                whole,
            )
            &&& text::occurs_in(
                " |\n| Readers per DB | "@ + readers_text + " |\n| Test duration | "@,
                whole,
            )
            &&& text::occurs_in(
                " |\n| Test duration | "@ + duration_text + " seconds |\n| Database counts | "@,
                whole,
            )
            &&& text::occurs_in(
                " seconds |\n| Database counts | "@ + counts + " |\n| Write delays (ms) | "@,
                whole,
            )
            &&& text::occurs_in(" |\n| Write delays (ms) | "@ + delays + " |\n"@, whole)
            &&& whole.len()
                == CONFIGURATION@.len() + "| Worker threads | "@.len() + workers_text.len()
                    + " |\n| Readers per DB | "@.len() + readers_text.len()
                    + " |\n| Test duration | "@.len() + duration_text.len()
                    + " seconds |\n| Database counts | "@.len() + counts.len()
                    + " |\n| Write delays (ms) | "@.len() + delays.len() + " |\n"@.len()
        }),
{
    let whole = settings(config);
    let workers_text = text::decimal(config.worker_threads as nat);
    let readers_text = text::decimal(config.readers_per_db as nat);
    let duration_text = text::decimal(config.duration as nat);
    let counts = text::bracketed(text::count_decimals(config.num_databases@));
    let delays = text::bracketed(text::decimals(config.write_delays@));
    let t0 = CONFIGURATION@;
    let t1 = t0 + "| Worker threads | "@;
    let t2 = t1 + workers_text;
    let t3 = t2 + " |\n| Readers per DB | "@;
    let t4 = t3 + readers_text;
    let t5 = t4 + " |\n| Test duration | "@;
    let t6 = t5 + duration_text;
    let t7 = t6 + " seconds |\n| Database counts | "@;
    let t8 = t7 + counts;
    let t9 = t8 + " |\n| Write delays (ms) | "@;
    let t10 = t9 + delays;
    let t11 = t10 + " |\n"@;
    assert(t11 == whole);
    text::occurs_between(Seq::empty(), whole, Seq::empty());
    text::occurs_beginning(t10, " |\n"@, whole);
    text::occurs_beginning(t9, delays, whole);
    text::occurs_beginning(t8, " |\n| Write delays (ms) | "@, whole);
    text::occurs_beginning(t7, counts, whole);
    text::occurs_beginning(t6, " seconds |\n| Database counts | "@, whole);
    text::occurs_beginning(t5, duration_text, whole);
    text::occurs_beginning(t4, " |\n| Test duration | "@, whole);
    text::occurs_beginning(t3, readers_text, whole);
    text::occurs_beginning(t2, " |\n| Readers per DB | "@, whole);
    text::occurs_beginning(t1, workers_text, whole);
    text::occurs_end_of_three(
        t0,
        "| Worker threads | "@,
        workers_text,
        " |\n| Readers per DB | "@,
        whole,
    );
    text::occurs_end_of_three(
        t2,
        " |\n| Readers per DB | "@,
        readers_text,
        " |\n| Test duration | "@,
        whole,
    );
    text::occurs_end_of_three(
        t4,
        " |\n| Test duration | "@,
        duration_text,
        " seconds |\n| Database counts | "@,
        whole,
    );
    text::occurs_end_of_three(
        t6,
        " seconds |\n| Database counts | "@,
        counts,
        " |\n| Write delays (ms) | "@,
        whole,
    );
    text::occurs_end_of_three(t8, " |\n| Write delays (ms) | "@, delays, " |\n"@, whole);
}

/// A section names the write delay and has the table of the completed writes, that of the reads per
/// second and that of the latencies, in this order.
pub proof fn section_has_three_tables(
    rows: Seq<Row<RunMetrics>>,
    delay: nat,
    databases: Seq<usize>,
)
    ensures
        ({
            let whole = section(rows, delay, databases);
            let name = delay::delay_name(delay);
            let completion = table(rows, Metric::WriteCompletion, delay, databases);
            let throughput = table(rows, Metric::ReadThroughput, delay, databases);
            let latency = table(rows, Metric::P99ReadLatency, delay, databases);
            &&& text::occurs_in("## Results for "@ + name + " write delay\n\n"@, whole)
            &&& text::occurs_in(" write delay\n\n"@ + completion + throughput, whole)
            &&& text::occurs_in(completion + throughput + latency, whole)
            &&& text::occurs_in(throughput + latency, whole)
            &&& whole.len()
                == "## Results for "@.len() + name.len() + " write delay\n\n"@.len()
                    + completion.len() + throughput.len() + latency.len()
        }),
{
    let whole = section(rows, delay, databases);
    let name = delay::delay_name(delay);
    let completion = table(rows, Metric::WriteCompletion, delay, databases);
    let throughput = table(rows, Metric::ReadThroughput, delay, databases);
    let latency = table(rows, Metric::P99ReadLatency, delay, databases);
    let t0 = "## Results for "@;
    let t1 = t0 + name;
    let t2 = t1 + " write delay\n\n"@;
    let t3 = t2 + completion;
    let t4 = t3 + throughput;
    let t5 = t4 + latency;
    assert(t5 == whole);
    text::occurs_between(Seq::empty(), whole, Seq::empty());
    text::occurs_beginning(t4, latency, whole);
    text::occurs_beginning(t3, throughput, whole);
    text::occurs_beginning(t2, completion, whole);
    text::occurs_beginning(t1, " write delay\n\n"@, whole);
    text::occurs_end_of_three(t1, " write delay\n\n"@, completion, throughput, whole);
    text::occurs_end_of_three(t2, completion, throughput, latency, whole);
    text::occurs_end_of_two(t3, throughput, latency, whole);
}

/// A table has the heading of its metric, the heads of the columns and its lines.
pub proof fn table_has_its_heading(
    rows: Seq<Row<RunMetrics>>,
    metric: Metric,
    delay: nat,
    databases: Seq<usize>,
)
    ensures
        ({
            let whole = table(rows, metric, delay, databases);
            let heading = metric.table_heading();
            let lines_text = table_lines(rows, metric, delay, databases);
            &&& text::occurs_in(TABLE_HEAD@ + lines_text + "\n"@, whole)
            &&& whole.len() == heading.len() + TABLE_HEAD@.len() + lines_text.len() + "\n"@.len()
        }),
{
    let whole = table(rows, metric, delay, databases);
    let heading = metric.table_heading();
    let lines_text = table_lines(rows, metric, delay, databases);
    let t0 = heading;
    let t1 = t0 + TABLE_HEAD@;
    let t2 = t1 + lines_text;
    let t3 = t2 + "\n"@;
    assert(t3 == whole);
    text::occurs_between(Seq::empty(), whole, Seq::empty());
    text::occurs_beginning(t2, "\n"@, whole);
    text::occurs_beginning(t1, lines_text, whole);
    text::occurs_end_of_three(t0, TABLE_HEAD@, lines_text, "\n"@, whole);
}

/// The summary has its moment, the settings, how to read the results, a section for each write
/// delay asked for, and what follows from them.
pub proof fn summary_has_every_part(
    moment: Seq<char>,
    config: Config,
    rows: Seq<Row<RunMetrics>>,
)
    ensures
        ({
            let whole = summary(moment, config, rows);
            let all = sections(rows, config.write_delays@, config.num_databases@);
            &&& text::occurs_in(TITLE@ + moment + settings(config), whole)
            &&& text::occurs_in(moment + settings(config) + INSIGHT@, whole)
            &&& text::occurs_in(settings(config) + INSIGHT@ + all, whole)
            &&& text::occurs_in(INSIGHT@ + all + ANALYSIS@, whole)
            &&& text::occurs_in(all + ANALYSIS@, whole)
            &&& whole.len()
                == TITLE@.len() + moment.len() + settings(config).len() + INSIGHT@.len()
                    + all.len() + ANALYSIS@.len()
        }),
{
    let whole = summary(moment, config, rows);
    let all = sections(rows, config.write_delays@, config.num_databases@);
    let t0 = TITLE@;
    let t1 = t0 + moment;
    let t2 = t1 + settings(config);
    let t3 = t2 + INSIGHT@;
    let t4 = t3 + all;
    let t5 = t4 + ANALYSIS@;
    assert(t5 == whole);
    text::occurs_between(Seq::empty(), whole, Seq::empty());
    text::occurs_beginning(t4, ANALYSIS@, whole);
    text::occurs_beginning(t3, all, whole);
    text::occurs_beginning(t2, INSIGHT@, whole);
    text::occurs_beginning(t1, settings(config), whole);
    text::occurs_end_of_three(t0, moment, settings(config), INSIGHT@, whole);
    text::occurs_end_of_three(t1, settings(config), INSIGHT@, all, whole);
    text::occurs_end_of_three(t2, INSIGHT@, all, ANALYSIS@, whole);
    text::occurs_end_of_two(t3, all, ANALYSIS@, whole);
}

/// One more number of databases adds one line to a table, and one more write delay adds one section
/// to the summary.
pub proof fn summary_grows_by_one(
    rows: Seq<Row<RunMetrics>>,
    metric: Metric,
    delays: Seq<u64>,
    databases: Seq<usize>,
    delay: u64,
    count: usize,
)
    ensures
        table_lines(rows, metric, delay as nat, Seq::empty()) == Seq::<char>::empty(),
        table_lines(rows, metric, delay as nat, databases.push(count)) == table_lines(
            rows,
            metric,
            delay as nat,
            databases,
        ) + table_line(rows, metric, delay as nat, count as nat),
        sections(rows, Seq::empty(), databases) == Seq::<char>::empty(),
        sections(rows, delays.push(delay), databases) == sections(rows, delays, databases)
            + section(rows, delay as nat, databases),
{
    assert(databases.push(count).drop_last() =~= databases);
    assert(delays.push(delay).drop_last() =~= delays);
}

/// On a line of a table the number of databases comes first, then the figure of direct blocking,
/// that of the blocking threads and that of the thread of each database, with bars between.
pub proof fn cells_stand_in_order(
    rows: Seq<Row<RunMetrics>>,
    metric: Metric,
    delay: nat,
    databases: nat,
)
    ensures
        ({
            let whole = table_line(rows, metric, delay, databases);
            let number = text::decimal(databases);
            let direct = metrics::value_of(
                rows,
                Approach::DirectBlocking,
                databases,
                delay,
                metric,
            ).one_decimal + metric.sign();
            let spawn = metrics::value_of(
                rows,
                Approach::SpawnBlocking,
                databases,
                delay,
                metric,
            ).one_decimal + metric.sign();
            let tokio = metrics::value_of(
                rows,
                Approach::TokioRusqlite,
                databases,
                delay,
                metric,
            ).one_decimal + metric.sign();
            let number_end = 2 + number.len();
            let direct_end = number_end + 3 + direct.len();
            let spawn_end = direct_end + 3 + spawn.len();
            let tokio_end = spawn_end + 3 + tokio.len();
            &&& whole.subrange(2, number_end as int) == number
            &&& whole.subrange((number_end + 3) as int, direct_end as int) == direct
            &&& whole.subrange((direct_end + 3) as int, spawn_end as int) == spawn
            &&& whole.subrange((spawn_end + 3) as int, tokio_end as int) == tokio
            &&& whole.len() == tokio_end + 3
        }),
{
    reveal_strlit("| ");
    reveal_strlit(" | ");
    reveal_strlit(" |\n");
    let whole = table_line(rows, metric, delay, databases);
    let number = text::decimal(databases);
    let direct = metrics::value_of(
        rows,
        Approach::DirectBlocking,
        databases,
        delay,
        metric,
    ).one_decimal + metric.sign();
    let spawn = metrics::value_of(
        rows,
        Approach::SpawnBlocking,
        databases,
        delay,
        metric,
    ).one_decimal + metric.sign();
    let tokio = metrics::value_of(
        rows,
        Approach::TokioRusqlite,
        databases,
        delay,
        metric,
    ).one_decimal + metric.sign();
    let number_end = 2 + number.len();
    let direct_end = number_end + 3 + direct.len();
    let spawn_end = direct_end + 3 + spawn.len();
    let tokio_end = spawn_end + 3 + tokio.len();
    assert(whole.subrange(2, number_end as int) =~= number);
    assert(whole.subrange((number_end + 3) as int, direct_end as int) =~= direct);
    assert(whole.subrange((direct_end + 3) as int, spawn_end as int) =~= spawn);
    assert(whole.subrange((spawn_end + 3) as int, tokio_end as int) =~= tokio);
}

/// Only completed writes carry a sign, which is that for percent.
pub proof fn only_percentages_carry_a_sign(metric: Metric)
    ensures
        metric is WriteCompletion ==> metric.sign() == seq!['%'],
        !(metric is WriteCompletion) ==> metric.sign() == Seq::<char>::empty(),
{
    reveal_strlit("%");
    reveal_strlit("");
    assert("%"@ =~= seq!['%']);
    assert(""@ =~= Seq::<char>::empty());
}

} // verus!
