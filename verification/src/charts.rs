//! The benchmark's page of interactive charts.

use crate::approach::Approach;
use crate::delay;
use crate::metrics;
use crate::metrics::{collect_series, Metric, RunMetrics};
use crate::rows;
use crate::rows::Row;
use crate::text;
use vstd::prelude::*;

verus! {

// ---------------------------------------------------------------------------
// Page and chart templates
// ---------------------------------------------------------------------------

/// The page up to its first chart.
pub const PAGE_HEAD: &'static str = r#"<!DOCTYPE html>
<html>
<head>
    <title>SQLite Async Benchmark Results</title>
    <script src="https://cdn.jsdelivr.net/npm/chart.js"></script>
    <style>
        body { font-family: -apple-system, BlinkMacSystemFont, 'Segoe UI', Roboto, sans-serif; margin: 20px; background: #1a1a2e; color: #eee; }
        h1 { color: #00d4ff; }
        h2 { color: #00ff88; margin-top: 40px; }
        .chart-container { width: 100%; max-width: 900px; margin: 20px auto; background: #16213e; padding: 20px; border-radius: 10px; }
        .warning { background: #4a1515; border-left: 4px solid #ff6384; padding: 15px; margin: 20px 0; border-radius: 5px; }
        .insight { background: #153a4a; border-left: 4px solid #4bc0c0; padding: 15px; margin: 20px 0; border-radius: 5px; }
    </style>
</head>
<body>
    <h1>SQLite Async Benchmark Results</h1>
    
    <div class="warning">
        <strong>⚠️ Important:</strong> When interpreting results, look at the <strong>Write Completion Ratio</strong> first!
        A low ratio (e.g., 2%) means writer tasks are starving. High read throughput with low write completion
        is a symptom of broken concurrency, not better performance.
    </div>

    <p>Comparing three approaches to SQLite operations in async Rust:</p>
    <ul>
        <li><strong style="color: #ff6384">Direct Blocking</strong> - SQLite calls made directly (blocks workers)</li>
        <li><strong style="color: #36a2eb">spawn_blocking</strong> - Wrapped in tokio::task::spawn_blocking()</li>
        <li><strong style="color: #4bc0c0">tokio-rusqlite</strong> - Dedicated thread per database</li>
    </ul>
"#;

/// The page after its last chart.
pub const PAGE_FOOT: &'static str = "</body></html>\n";

/// The note above each chart of completed writes.
pub const COMPLETION_NOTE: &'static str = r#"    <div class="insight">Lower is worse! A ratio &lt;100% means writer tasks are starving for worker threads.</div>
"#;

/// From the heading to the canvas.
pub const CANVAS_OPEN: &'static str = r#"    <div class="chart-container">
        <canvas id=""#;

/// From the canvas to the script that draws on it.
pub const SCRIPT_OPEN: &'static str = r#""></canvas>
    </div>
    <script>
        new Chart(document.getElementById('"#;

/// From the script's beginning to the labels.
pub const LABELS_OPEN: &'static str = r#"'), {
            type: 'bar',
            data: {
                labels: "#;

/// From the labels to the first series.
pub const DIRECT_OPEN: &'static str = r#",
                datasets: [
                    { label: 'Direct Blocking', data: "#;

/// From the first series to the second.
pub const SPAWN_OPEN: &'static str = r#", backgroundColor: 'rgba(255, 99, 132, 0.8)', borderColor: 'rgb(255, 99, 132)', borderWidth: 1 },
                    { label: 'spawn_blocking', data: "#;

/// From the second series to the third.
pub const TOKIO_OPEN: &'static str = r#", backgroundColor: 'rgba(54, 162, 235, 0.8)', borderColor: 'rgb(54, 162, 235)', borderWidth: 1 },
                    { label: 'tokio-rusqlite', data: "#;

/// From the third series to the chart's title.
pub const TITLE_OPEN: &'static str = r#", backgroundColor: 'rgba(75, 192, 192, 0.8)', borderColor: 'rgb(75, 192, 192)', borderWidth: 1 }
                ]
            },
            options: {
                responsive: true,
                plugins: {
                    title: { display: true, text: '"#;

/// From the chart's title to the name of the vertical axis.
pub const AXES_OPEN: &'static str = r#" Write Delay', color: '#eee', font: { size: 16 } },
                    legend: { labels: { color: '#eee' } }
                },
                scales: {
                    x: { title: { display: true, text: 'Number of Databases', color: '#eee' }, ticks: { color: '#aaa' }, grid: { color: '#333' } },
                    y: { title: { display: true, text: '"#;

/// From the name of the vertical axis to its limit, if it has one.
pub const LIMIT_OPEN: &'static str = r#"', color: '#eee' }, ticks: { color: '#aaa' }, grid: { color: '#333' }"#;

/// From the limit of the vertical axis to the end of the chart.
pub const CHART_CLOSE: &'static str = r#" }
                }
            }
        });
    </script>

"#;

/// What a chart of a metric says in its own words.
impl Metric {
    /// The heading above the chart.
    pub open spec fn heading(self) -> Seq<char> {
        match self {
            Metric::WriteCompletion => "Write Completion Ratio"@,
            Metric::ReadThroughput => "Read Throughput"@,
            Metric::P99ReadLatency => "P99 Read Latency"@,
        }
    }

    /// The remark below the heading.
    pub open spec fn note(self) -> Seq<char> {
        match self {
            Metric::WriteCompletion => COMPLETION_NOTE@,
            Metric::ReadThroughput => ""@,
            Metric::P99ReadLatency => ""@,
        }
    }

    /// What the identifiers of the charts begin with.
    pub open spec fn id_prefix(self) -> Seq<char> {
        match self {
            Metric::WriteCompletion => "completion"@,
            Metric::ReadThroughput => "throughput"@,
            Metric::P99ReadLatency => "latency"@,
        }
    }

    /// The title inside the chart.
    pub open spec fn title(self) -> Seq<char> {
        match self {
            Metric::WriteCompletion => "Write Completion Ratio (%)"@,
            Metric::ReadThroughput => "Read Throughput (requests/sec)"@,
            Metric::P99ReadLatency => "P99 Read Latency (ms)"@,
        }
    }

    /// The name of the vertical axis.
    pub open spec fn unit(self) -> Seq<char> {
        match self {
            Metric::WriteCompletion => "Completion %"@,
            Metric::ReadThroughput => "Requests/sec"@,
            Metric::P99ReadLatency => "Latency (ms)"@,
        }
    }

    /// The limit of the vertical axis.
    pub open spec fn limit(self) -> Seq<char> {
        match self {
            Metric::WriteCompletion => ", max: 110"@,
            Metric::ReadThroughput => ""@,
            Metric::P99ReadLatency => ""@,
        }
    }

    /// The heading above the chart.
    fn heading_text(self) -> (s: &'static str)
        ensures
            s@ == self.heading(),
    {
        match self {
            Metric::WriteCompletion => "Write Completion Ratio",
            Metric::ReadThroughput => "Read Throughput",
            Metric::P99ReadLatency => "P99 Read Latency",
        }
    }

    /// The remark below the heading.
    fn note_text(self) -> (s: &'static str)
        ensures
            s@ == self.note(),
    {
        match self {
            Metric::WriteCompletion => COMPLETION_NOTE,
            Metric::ReadThroughput => "",
            Metric::P99ReadLatency => "",
        }
    }

    /// What the identifiers of the charts begin with.
    fn id_prefix_text(self) -> (s: &'static str)
        ensures
            s@ == self.id_prefix(),
    {
        match self {
            Metric::WriteCompletion => "completion",
            Metric::ReadThroughput => "throughput",
            Metric::P99ReadLatency => "latency",
        }
    }

    /// The title inside the chart.
    fn title_text(self) -> (s: &'static str)
        ensures
            s@ == self.title(),
    {
        match self {
            Metric::WriteCompletion => "Write Completion Ratio (%)",
            Metric::ReadThroughput => "Read Throughput (requests/sec)",
            Metric::P99ReadLatency => "P99 Read Latency (ms)",
        }
    }

    /// The name of the vertical axis.
    fn unit_text(self) -> (s: &'static str)
        ensures
            s@ == self.unit(),
    {
        match self {
            Metric::WriteCompletion => "Completion %",
            Metric::ReadThroughput => "Requests/sec",
            Metric::P99ReadLatency => "Latency (ms)",
        }
    }

    /// The limit of the vertical axis.
    fn limit_text(self) -> (s: &'static str)
        ensures
            s@ == self.limit(),
    {
        match self {
            Metric::WriteCompletion => ", max: 110",
            Metric::ReadThroughput => "",
            Metric::P99ReadLatency => "",
        }
    }
}

// ---------------------------------------------------------------------------
// Charts
// ---------------------------------------------------------------------------

/// The identifier of the chart of `metric` for the delay at place `index`.
pub open spec fn chart_id(metric: Metric, index: nat) -> Seq<char> {
    metric.id_prefix() + text::decimal(index)
}

/// The chart of one metric for one write delay, with a bar of each approach for each number of
/// databases.
pub open spec fn chart(
    rows: Seq<Row<RunMetrics>>,
    metric: Metric,
    index: nat,
    delay: nat,
    databases: Seq<nat>,
) -> Seq<char> {
    let id = chart_id(metric, index);
    let name = delay::delay_name(delay);
    let labels = Seq::new(databases.len(), |i: int| text::decimal(databases[i]));
    let direct = metrics::series(rows, Approach::DirectBlocking, databases, delay, metric);
    let spawn = metrics::series(rows, Approach::SpawnBlocking, databases, delay, metric);
    let tokio = metrics::series(rows, Approach::TokioRusqlite, databases, delay, metric);
    "\n    <h2>"@ + metric.heading() + " - "@ + name + " Write Delay</h2>\n"@ + metric.note()
        + CANVAS_OPEN@ + id + SCRIPT_OPEN@ + id + LABELS_OPEN@ + text::bracketed(labels)
        + DIRECT_OPEN@ + text::bracketed(direct) + SPAWN_OPEN@ + text::bracketed(spawn)
        + TOKIO_OPEN@ + text::bracketed(tokio) + TITLE_OPEN@ + metric.title() + " - "@ + name
        + AXES_OPEN@ + metric.unit() + LIMIT_OPEN@ + metric.limit() + CHART_CLOSE@
}

/// The charts of one metric, one for each write delay.
pub open spec fn charts(
    rows: Seq<Row<RunMetrics>>,
    metric: Metric,
    delays: Seq<nat>,
    databases: Seq<nat>,
) -> Seq<char>
    decreases delays.len(),
{
    if delays.len() == 0 {
        Seq::empty()
    } else {
        let last = (delays.len() - 1) as nat;
        charts(rows, metric, delays.drop_last(), databases) + chart(
            rows,
            metric,
            last,
            delays.last(),
            databases,
        )
    }
}

/// The page of charts along the given axes.
pub open spec fn page(
    rows: Seq<Row<RunMetrics>>,
    delays: Seq<nat>,
    databases: Seq<nat>,
) -> Seq<char> {
    PAGE_HEAD@ + charts(rows, Metric::WriteCompletion, delays, databases) + charts(
        rows,
        Metric::ReadThroughput,
        delays,
        databases,
    ) + charts(rows, Metric::P99ReadLatency, delays, databases) + PAGE_FOOT@
}

/// Writes one chart.
fn write_chart(
    rows: &Vec<Row<RunMetrics>>,
    metric: Metric,
    index: usize,
    delay: u64,
    databases: &Vec<u64>,
) -> (s: String)
    ensures
        s@ == chart(rows@, metric, index as nat, delay as nat, rows::nats(databases@)),
{
    let mut id = String::from_str(metric.id_prefix_text());
    let number = text::decimal_text(index as u64);
    id.append(number.as_str());
    let name = delay::format_delay(delay);
    let labels = text::number_list(databases);
    let direct = text::bracketed_list(
        &collect_series(rows, Approach::DirectBlocking, databases, delay, metric),
    );
    let spawn = text::bracketed_list(
        &collect_series(rows, Approach::SpawnBlocking, databases, delay, metric),
    );
    let tokio = text::bracketed_list(
        &collect_series(rows, Approach::TokioRusqlite, databases, delay, metric),
    );
    let ghost numbers = rows::nats(databases@);
    assert(text::decimals(databases@) =~= Seq::new(
        numbers.len(),
        |i: int| text::decimal(numbers[i]),
    ));

    let mut s = String::from_str("\n    <h2>");
    s.append(metric.heading_text());
    s.append(" - ");
    s.append(name.as_str());
    s.append(" Write Delay</h2>\n");
    s.append(metric.note_text());
    s.append(CANVAS_OPEN);
    s.append(id.as_str());
    s.append(SCRIPT_OPEN);
    s.append(id.as_str());
    s.append(LABELS_OPEN);
    s.append(labels.as_str());
    s.append(DIRECT_OPEN);
    s.append(direct.as_str());
    s.append(SPAWN_OPEN);
    s.append(spawn.as_str());
    s.append(TOKIO_OPEN);
    s.append(tokio.as_str());
    s.append(TITLE_OPEN);
    s.append(metric.title_text());
    s.append(" - ");
    s.append(name.as_str());
    s.append(AXES_OPEN);
    s.append(metric.unit_text());
    s.append(LIMIT_OPEN);
    s.append(metric.limit_text());
    s.append(CHART_CLOSE);
    s
}

/// Writes the charts of one metric.
fn write_charts(
    rows: &Vec<Row<RunMetrics>>,
    metric: Metric,
    delays: &Vec<u64>,
    databases: &Vec<u64>,
) -> (s: String)
    ensures
        s@ == charts(rows@, metric, rows::nats(delays@), rows::nats(databases@)),
{
    let mut s = String::new();
    let mut i: usize = 0;
    let ghost all = rows::nats(delays@);
    while i < delays.len()
        invariant
            i <= delays@.len(),
            all == rows::nats(delays@),
            s@ == charts(rows@, metric, all.take(i as int), rows::nats(databases@)),
        decreases delays.len() - i,
    {
        assert(all.take(i + 1).drop_last() =~= all.take(i as int));
        let chart = write_chart(rows, metric, i, delays[i], databases);
        s.append(chart.as_str());
        i = i + 1;
    }
    assert(all.take(all.len() as int) =~= all);
    s
}

/// The page of charts: each write delay that occurs has a chart of each metric, and each chart
/// has a bar of each approach for each number of databases that occurs, both in ascending order.
pub fn generate_html_chart(rows: &Vec<Row<RunMetrics>>) -> (s: String)
    ensures
        s@ == page(
            rows@,
            rows::axis_of(rows::delays_of(rows@)),
            rows::axis_of(rows::databases_of(rows@)),
        ),
{
    let delays = rows::ascending_delays(rows);
    let databases = rows::ascending_databases(rows);
    let completion = write_charts(rows, Metric::WriteCompletion, &delays, &databases);
    let throughput = write_charts(rows, Metric::ReadThroughput, &delays, &databases);
    let latency = write_charts(rows, Metric::P99ReadLatency, &delays, &databases);
    let mut s = String::from_str(PAGE_HEAD);
    s.append(completion.as_str());
    s.append(throughput.as_str());
    s.append(latency.as_str());
    s.append(PAGE_FOOT);
    s
}

// ---------------------------------------------------------------------------
// Laws
// ---------------------------------------------------------------------------

/// No two charts of the page have the same identifier, so each is drawn on its own canvas.
pub proof fn chart_ids_differ(a: Metric, i: nat, b: Metric, j: nat)
    ensures
        chart_id(a, i) == chart_id(b, j) <==> a == b && i == j,
{
    reveal_strlit("completion");
    reveal_strlit("throughput");
    reveal_strlit("latency");
    if chart_id(a, i) == chart_id(b, j) {
        assert(chart_id(a, i)[0] == a.id_prefix()[0]);
        assert(chart_id(b, j)[0] == b.id_prefix()[0]);
        assert(a == b);
        let n = a.id_prefix().len() as int;
        assert(chart_id(a, i).skip(n) =~= text::decimal(i));
        assert(chart_id(b, j).skip(n) =~= text::decimal(j));
        text::decimal_injective(i, j);
    }
}

/// Each write delay has its chart among those of a metric.
proof fn charts_hold_chart(
    rows: Seq<Row<RunMetrics>>,
    metric: Metric,
    delays: Seq<nat>,
    databases: Seq<nat>,
    w: int,
)
    requires
        0 <= w < delays.len(),
    ensures
        text::occurs_in(
            chart(rows, metric, w as nat, delays[w], databases),
            charts(rows, metric, delays, databases),
        ),
    decreases delays.len(),
{
    let own = chart(rows, metric, w as nat, delays[w], databases);
    let front = delays.drop_last();
    let head = charts(rows, metric, front, databases);
    let tail = chart(rows, metric, front.len(), delays.last(), databases);
    if w == front.len() {
        text::occurs_between(head, own, Seq::empty());
    } else {
        charts_hold_chart(rows, metric, front, databases, w);
        text::occurs_between(Seq::empty(), head, tail);
        text::occurs_through(own, head, head + tail);
    }
}

/// The page shows every metric for every write delay along its axis: the chart occurs in it.
pub proof fn page_shows_every_delay(
    rows: Seq<Row<RunMetrics>>,
    metric: Metric,
    delays: Seq<nat>,
    databases: Seq<nat>,
    w: int,
)
    requires
        0 <= w < delays.len(),
    ensures
        text::occurs_in(
            chart(rows, metric, w as nat, delays[w], databases),
            page(rows, delays, databases),
        ),
{
    let own = chart(rows, metric, w as nat, delays[w], databases);
    let first = charts(rows, Metric::WriteCompletion, delays, databases);
    let second = charts(rows, Metric::ReadThroughput, delays, databases);
    let third = charts(rows, Metric::P99ReadLatency, delays, databases);
    let whole = page(rows, delays, databases);
    charts_hold_chart(rows, metric, delays, databases, w);
    match metric {
        Metric::WriteCompletion => {
            text::occurs_between(PAGE_HEAD@, first, second + third + PAGE_FOOT@);
            assert(whole =~= PAGE_HEAD@ + first + (second + third + PAGE_FOOT@));
            text::occurs_through(own, first, whole);
        },
        Metric::ReadThroughput => {
            text::occurs_between(PAGE_HEAD@ + first, second, third + PAGE_FOOT@);
            assert(whole =~= PAGE_HEAD@ + first + second + (third + PAGE_FOOT@));
            text::occurs_through(own, second, whole);
        },
        Metric::P99ReadLatency => {
            text::occurs_between(PAGE_HEAD@ + first + second, third, PAGE_FOOT@);
            text::occurs_through(own, third, whole);
        },
    }
}

/// Whatever was measured is shown: the page drawn from the rows has the chart of every metric for
/// the write delay of each row, and the row's number of databases is among the labels.
pub proof fn every_row_is_shown(rows: Seq<Row<RunMetrics>>, metric: Metric, i: int)
    requires
        0 <= i < rows.len(),
    ensures
        ({
            let delays = rows::axis_of(rows::delays_of(rows));
            let databases = rows::axis_of(rows::databases_of(rows));
            &&& databases.contains(rows[i].num_databases as nat)
            &&& exists|w: int|
                0 <= w < delays.len() && #[trigger] delays[w] == rows[i].write_delay_ms
                    && text::occurs_in(
                    chart(rows, metric, w as nat, delays[w], databases),
                    page(rows, delays, databases),
                )
        }),
{
    let delays = rows::axis_of(rows::delays_of(rows));
    let databases = rows::axis_of(rows::databases_of(rows));
    rows::axis_holds_each_value_once(rows::delays_of(rows));
    rows::axis_holds_each_value_once(rows::databases_of(rows));
    assert(rows::databases_of(rows)[i] == rows[i].num_databases as nat);
    assert(rows::databases_of(rows).contains(rows[i].num_databases as nat));
    assert(rows::delays_of(rows)[i] == rows[i].write_delay_ms as nat);
    assert(rows::delays_of(rows).contains(rows[i].write_delay_ms as nat));
    assert(delays.contains(rows[i].write_delay_ms as nat));
    let w = choose|w: int| 0 <= w < delays.len() && delays[w] == rows[i].write_delay_ms;
    page_shows_every_delay(rows, metric, delays, databases, w);
}

/// A chart names its write delay, is drawn on the canvas with its identifier, and has a label for
/// each number of databases and a series for each approach.
pub proof fn chart_shows_its_figures(
    rows: Seq<Row<RunMetrics>>,
    metric: Metric,
    index: nat,
    delay: nat,
    databases: Seq<nat>,
    labels: Seq<Seq<char>>,
)
    requires
        labels.len() == databases.len(),
        forall|i: int| 0 <= i < labels.len() ==> #[trigger] labels[i]
            == text::decimal(databases[i]),
    ensures
        ({
            let whole = chart(rows, metric, index, delay, databases);
            let name = delay::delay_name(delay);
            let id = chart_id(metric, index);
            let label_list = text::bracketed(labels);
            let direct = text::bracketed(
                metrics::series(rows, Approach::DirectBlocking, databases, delay, metric),
            );
            let spawn = text::bracketed(
                metrics::series(rows, Approach::SpawnBlocking, databases, delay, metric),
            );
            let tokio = text::bracketed(
                metrics::series(rows, Approach::TokioRusqlite, databases, delay, metric),
            );
            &&& text::occurs_in(" - "@ + name + " Write Delay</h2>\n"@, whole)
            &&& text::occurs_in(CANVAS_OPEN@ + id + SCRIPT_OPEN@, whole)
            &&& text::occurs_in(SCRIPT_OPEN@ + id + LABELS_OPEN@, whole)
            &&& text::occurs_in(LABELS_OPEN@ + label_list + DIRECT_OPEN@, whole)
            &&& text::occurs_in(DIRECT_OPEN@ + direct + SPAWN_OPEN@, whole)
            &&& text::occurs_in(SPAWN_OPEN@ + spawn + TOKIO_OPEN@, whole)
            &&& text::occurs_in(TOKIO_OPEN@ + tokio + TITLE_OPEN@, whole)
            &&& text::occurs_in(" - "@ + name + AXES_OPEN@, whole)
            &&& text::occurs_in(AXES_OPEN@ + metric.unit() + LIMIT_OPEN@, whole)
            &&& text::occurs_in(LIMIT_OPEN@ + metric.limit() + CHART_CLOSE@, whole)
            &&& whole.len()
                == "\n    <h2>"@.len() + metric.heading().len() + " - "@.len() + name.len()
                    + " Write Delay</h2>\n"@.len() + metric.note().len() + CANVAS_OPEN@.len()
                    + id.len() + SCRIPT_OPEN@.len() + id.len() + LABELS_OPEN@.len()
                    + label_list.len() + DIRECT_OPEN@.len() + direct.len() + SPAWN_OPEN@.len()
                    + spawn.len() + TOKIO_OPEN@.len() + tokio.len() + TITLE_OPEN@.len()
                    + metric.title().len() + " - "@.len() + name.len() + AXES_OPEN@.len()
                    + metric.unit().len() + LIMIT_OPEN@.len() + metric.limit().len()
                    + CHART_CLOSE@.len()
        }),
{
    assert(labels =~= Seq::new(databases.len(), |i: int| text::decimal(databases[i])));
    let whole = chart(rows, metric, index, delay, databases);
    let name = delay::delay_name(delay);
    let id = chart_id(metric, index);
    let label_list = text::bracketed(labels);
    let direct = text::bracketed(
        metrics::series(rows, Approach::DirectBlocking, databases, delay, metric),
    );
    let spawn = text::bracketed(
        metrics::series(rows, Approach::SpawnBlocking, databases, delay, metric),
    );
    let tokio = text::bracketed(
        metrics::series(rows, Approach::TokioRusqlite, databases, delay, metric),
    );
    let t0 = "\n    <h2>"@;
    let t1 = t0 + metric.heading();
    let t2 = t1 + " - "@;
    let t3 = t2 + name;
    let t4 = t3 + " Write Delay</h2>\n"@;
    let t5 = t4 + metric.note();
    let t6 = t5 + CANVAS_OPEN@;
    let t7 = t6 + id;
    let t8 = t7 + SCRIPT_OPEN@;
    let t9 = t8 + id;
    let t10 = t9 + LABELS_OPEN@;
    let t11 = t10 + label_list;
    let t12 = t11 + DIRECT_OPEN@;
    let t13 = t12 + direct;
    let t14 = t13 + SPAWN_OPEN@;
    let t15 = t14 + spawn;
    let t16 = t15 + TOKIO_OPEN@;
    let t17 = t16 + tokio;
    let t18 = t17 + TITLE_OPEN@;
    let t19 = t18 + metric.title();
    let t20 = t19 + " - "@;
    let t21 = t20 + name;
    let t22 = t21 + AXES_OPEN@;
    let t23 = t22 + metric.unit();
    let t24 = t23 + LIMIT_OPEN@;
    let t25 = t24 + metric.limit();
    let t26 = t25 + CHART_CLOSE@;
    assert(t26 == whole);
    text::occurs_between(Seq::empty(), whole, Seq::empty());
    text::occurs_beginning(t25, CHART_CLOSE@, whole);
    text::occurs_beginning(t24, metric.limit(), whole);
    text::occurs_beginning(t23, LIMIT_OPEN@, whole);
    text::occurs_beginning(t22, metric.unit(), whole);
    text::occurs_beginning(t21, AXES_OPEN@, whole);
    text::occurs_beginning(t20, name, whole);
    text::occurs_beginning(t19, " - "@, whole);
    text::occurs_beginning(t18, metric.title(), whole);
    text::occurs_beginning(t17, TITLE_OPEN@, whole);
    text::occurs_beginning(t16, tokio, whole);
    text::occurs_beginning(t15, TOKIO_OPEN@, whole);
    text::occurs_beginning(t14, spawn, whole);
    text::occurs_beginning(t13, SPAWN_OPEN@, whole);
    text::occurs_beginning(t12, direct, whole);
    text::occurs_beginning(t11, DIRECT_OPEN@, whole);
    text::occurs_beginning(t10, label_list, whole);
    text::occurs_beginning(t9, LABELS_OPEN@, whole);
    text::occurs_beginning(t8, id, whole);
    text::occurs_beginning(t7, SCRIPT_OPEN@, whole);
    text::occurs_beginning(t6, id, whole);
    text::occurs_beginning(t5, CANVAS_OPEN@, whole);
    text::occurs_beginning(t4, metric.note(), whole);
    text::occurs_beginning(t3, " Write Delay</h2>\n"@, whole);
    text::occurs_beginning(t2, name, whole);
    text::occurs_beginning(t1, " - "@, whole);
    text::occurs_end_of_three(t1, " - "@, name, " Write Delay</h2>\n"@, whole);
    text::occurs_end_of_three(t5, CANVAS_OPEN@, id, SCRIPT_OPEN@, whole);
    text::occurs_end_of_three(t7, SCRIPT_OPEN@, id, LABELS_OPEN@, whole);
    text::occurs_end_of_three(t9, LABELS_OPEN@, label_list, DIRECT_OPEN@, whole);
    text::occurs_end_of_three(t11, DIRECT_OPEN@, direct, SPAWN_OPEN@, whole);
    text::occurs_end_of_three(t13, SPAWN_OPEN@, spawn, TOKIO_OPEN@, whole);
    text::occurs_end_of_three(t15, TOKIO_OPEN@, tokio, TITLE_OPEN@, whole);
    text::occurs_end_of_three(t19, " - "@, name, AXES_OPEN@, whole);
    text::occurs_end_of_three(t21, AXES_OPEN@, metric.unit(), LIMIT_OPEN@, whole);
    text::occurs_end_of_three(t23, LIMIT_OPEN@, metric.limit(), CHART_CLOSE@, whole);
}

/// The page has its head, the charts of the completed writes, those of the reads per second, those
/// of the latencies, and its foot.
pub proof fn page_has_every_part(
    rows: Seq<Row<RunMetrics>>,
    delays: Seq<nat>,
    databases: Seq<nat>,
)
    ensures
        ({
            let whole = page(rows, delays, databases);
            let completion = charts(rows, Metric::WriteCompletion, delays, databases);
            let throughput = charts(rows, Metric::ReadThroughput, delays, databases);
            let latency = charts(rows, Metric::P99ReadLatency, delays, databases);
            &&& text::occurs_in(PAGE_HEAD@ + completion + throughput, whole)
            &&& text::occurs_in(completion + throughput + latency, whole)
            &&& text::occurs_in(throughput + latency + PAGE_FOOT@, whole)
            &&& whole.len()
                == PAGE_HEAD@.len() + completion.len() + throughput.len() + latency.len()
                    + PAGE_FOOT@.len()
        }),
{
    let whole = page(rows, delays, databases);
    let completion = charts(rows, Metric::WriteCompletion, delays, databases);
    let throughput = charts(rows, Metric::ReadThroughput, delays, databases);
    let latency = charts(rows, Metric::P99ReadLatency, delays, databases);
    let t0 = PAGE_HEAD@;
    let t1 = t0 + completion;
    let t2 = t1 + throughput;
    let t3 = t2 + latency;
    let t4 = t3 + PAGE_FOOT@;
    assert(t4 == whole);
    text::occurs_between(Seq::empty(), whole, Seq::empty());
    text::occurs_beginning(t3, PAGE_FOOT@, whole);
    text::occurs_beginning(t2, latency, whole);
    text::occurs_beginning(t1, throughput, whole);
    text::occurs_end_of_three(t0, completion, throughput, latency, whole);
    text::occurs_end_of_three(t1, throughput, latency, PAGE_FOOT@, whole);
}

/// One more write delay adds one chart, numbered on from those before it.
pub proof fn charts_grow_by_one(
    rows: Seq<Row<RunMetrics>>,
    metric: Metric,
    delays: Seq<nat>,
    databases: Seq<nat>,
    delay: nat,
)
    ensures
        charts(rows, metric, Seq::empty(), databases) == Seq::<char>::empty(),
        charts(rows, metric, delays.push(delay), databases) == charts(
            rows,
            metric,
            delays,
            databases,
        ) + chart(rows, metric, delays.len(), delay, databases),
{
    assert(delays.push(delay).drop_last() =~= delays);
}

/// The identifier of a chart is a word for its metric and, in decimal notation, its number.
pub proof fn chart_id_tells_its_number(metric: Metric, index: nat)
    ensures
        ({
            let id = chart_id(metric, index);
            let n: int = if metric is P99ReadLatency {
                7
            } else {
                10
            };
            &&& n < id.len()
            &&& metric is WriteCompletion ==> id.take(n) == "completion"@
            &&& metric is ReadThroughput ==> id.take(n) == "throughput"@
            &&& metric is P99ReadLatency ==> id.take(n) == "latency"@
            &&& text::digits_value(id.skip(n)) == index
            &&& index > 0 ==> id[n] != '0'
        }),
{
    reveal_strlit("completion");
    reveal_strlit("throughput");
    reveal_strlit("latency");
    text::decimal_reads_back(index);
    text::decimal_has_no_leading_zero(index);
    let id = chart_id(metric, index);
    let n = metric.id_prefix().len() as int;
    assert(id.take(n) =~= metric.id_prefix());
    assert(id.skip(n) =~= text::decimal(index));
}

} // verus!
