//! The page of interactive charts.

use crate::approach::Approach;
use crate::delay;
use crate::latency;
use crate::plot::stored;
use crate::plot::stored::StoredMetrics;
use crate::rows;
use crate::rows::Row;
use crate::text;
use vstd::prelude::*;

verus! {

// ---------------------------------------------------------------------------
// Page and chart templates
// ---------------------------------------------------------------------------

/// The name of the file that holds the page.
pub const FILE_NAME: &'static str = "charts_regenerated.html";

/// The page up to its first chart.
pub const PAGE_HEAD: &'static str = r#"<!DOCTYPE html>
<html>
<head>
    <title>SQLite Async Benchmark Results</title>
    <script src="https://cdn.jsdelivr.net/npm/chart.js"></script>
    <style>
        body { font-family: -apple-system, BlinkMacSystemFont, 'Segoe UI', Roboto, sans-serif; margin: 20px; background: #1a1a2e; color: #eee; }
        h1 { color: #00d4ff; }
        h2 { color: #00ff88; margin-top: 40px; }
        .chart-container { width: 100%; max-width: 900px; margin: 20px auto; background: #16213e; padding: 20px; border-radius: 10px; }
        canvas { background: #16213e; }
    </style>
</head>
<body>
    <h1>SQLite Async Benchmark Results (Regenerated)</h1>
    
    <p>Comparing three approaches to SQLite operations in async Rust:</p>
    <ul>
        <li><strong style="color: #ff6384">Direct Blocking</strong> - SQLite calls made directly (blocks workers)</li>
        <li><strong style="color: #36a2eb">spawn_blocking</strong> - Wrapped in tokio::task::spawn_blocking()</li>
        <li><strong style="color: #4bc0c0">tokio-rusqlite</strong> - Dedicated thread per database</li>
    </ul>
"#;

/// The page after its last chart.
pub const PAGE_FOOT: &'static str = "</body></html>\n";

/// From the heading to the number of the canvas.
pub const CANVAS_OPEN: &'static str = r#" Write Delay</h2>
    <div class="chart-container">
        <canvas id="chart"#;

/// From the number of the canvas to that in the script.
pub const SCRIPT_OPEN: &'static str = r#""></canvas>
    </div>
    <script>
        new Chart(document.getElementById('chart"#;

/// From the number in the script to the labels.
pub const LABELS_OPEN: &'static str = r#"'), {
            type: 'bar',
            data: {
                labels: "#;

/// From the labels to the first series.
pub const DIRECT_OPEN: &'static str = r#",
                datasets: [
                    {
                        label: 'Direct Blocking',
                        data: "#;

/// From the first series to the second.
pub const SPAWN_OPEN: &'static str = r#",
                        backgroundColor: 'rgba(255, 99, 132, 0.8)',
                        borderColor: 'rgb(255, 99, 132)',
                        borderWidth: 1
                    },
                    {
                        label: 'spawn_blocking',
                        data: "#;

/// From the second series to the third.
pub const TOKIO_OPEN: &'static str = r#",
                        backgroundColor: 'rgba(54, 162, 235, 0.8)',
                        borderColor: 'rgb(54, 162, 235)',
                        borderWidth: 1
                    },
                    {
                        label: 'tokio-rusqlite',
                        data: "#;

/// From the third series to the title.
pub const TITLE_OPEN: &'static str = r#",
                        backgroundColor: 'rgba(75, 192, 192, 0.8)',
                        borderColor: 'rgb(75, 192, 192)',
                        borderWidth: 1
                    }
                ]
            },
            options: {
                responsive: true,
                plugins: {
                    title: {
                        display: true,
                        text: '"#;

/// From the title to the name of the vertical axis.
pub const AXES_OPEN: &'static str = r#" Write Delay',
                        color: '#eee',
                        font: { size: 16 }
                    },
                    legend: {
                        labels: { color: '#eee' }
                    }
                },
                scales: {
                    x: {
                        title: { display: true, text: 'Number of Databases', color: '#eee' },
                        ticks: { color: '#aaa' },
                        grid: { color: '#333' }
                    },
                    y: {
                        title: { display: true, text: '"#;

/// From the name of the vertical axis to the end of the chart.
pub const CHART_CLOSE: &'static str = r#"', color: '#eee' },
                        ticks: { color: '#aaa' },
                        grid: { color: '#333' }
                    }
                }
            }
        });
    </script>

"#;

/// What a chart shows.
#[derive(Clone, Copy, Debug, PartialEq, Eq, Structural)]
pub enum Topic {
    /// Reads per second.
    Throughput,
    /// The 99th percentile of the read latency.
    Latency,
}

impl Topic {
    /// The heading above the chart.
    pub open spec fn heading(self) -> Seq<char> {
        match self {
            Topic::Throughput => "Read Throughput"@,
            Topic::Latency => "P99 Read Latency"@,
        }
    }

    /// The title inside the chart.
    pub open spec fn title(self) -> Seq<char> {
        match self {
            Topic::Throughput => "Read Throughput (requests/sec)"@,
            Topic::Latency => "P99 Read Latency (ms)"@,
        }
    }

    /// The name of the vertical axis.
    pub open spec fn unit(self) -> Seq<char> {
        match self {
            Topic::Throughput => "Requests/sec"@,
            Topic::Latency => "Latency (ms)"@,
        }
    }

    /// The heading above the chart.
    fn heading_text(self) -> (s: &'static str)
        ensures
            s@ == self.heading(),
    {
        match self {
            Topic::Throughput => "Read Throughput",
            Topic::Latency => "P99 Read Latency",
        }
    }

    /// The title inside the chart.
    fn title_text(self) -> (s: &'static str)
        ensures
            s@ == self.title(),
    {
        match self {
            Topic::Throughput => "Read Throughput (requests/sec)",
            Topic::Latency => "P99 Read Latency (ms)",
        }
    }

    /// The name of the vertical axis.
    fn unit_text(self) -> (s: &'static str)
        ensures
            s@ == self.unit(),
    {
        match self {
            Topic::Throughput => "Requests/sec",
            Topic::Latency => "Latency (ms)",
        }
    }
}

// ---------------------------------------------------------------------------
// Charts
// ---------------------------------------------------------------------------

/// What a bar shows.
pub open spec fn bar(
    rows: Seq<Row<StoredMetrics>>,
    topic: Topic,
    approach: Approach,
    databases: nat,
    delay: nat,
) -> Seq<char> {
    match topic {
        Topic::Throughput => stored::throughput(rows, approach, databases, delay).shortest,
        Topic::Latency => latency::latency_name(stored::p99(rows, approach, databases, delay)),
    }
}

/// What the bars of one approach show for each number of databases in turn.
pub open spec fn series(
    rows: Seq<Row<StoredMetrics>>,
    topic: Topic,
    approach: Approach,
    databases: Seq<nat>,
    delay: nat,
) -> Seq<Seq<char>> {
    Seq::new(databases.len(), |i: int| bar(rows, topic, approach, databases[i], delay))
}

/// The chart of one topic for one write delay, drawn on the canvas with the given number.
pub open spec fn chart(
    rows: Seq<Row<StoredMetrics>>,
    topic: Topic,
    number: nat,
    delay: nat,
    databases: Seq<nat>,
) -> Seq<char> {
    let name = delay::delay_name(delay);
    let labels = Seq::new(databases.len(), |i: int| text::decimal(databases[i]));
    let direct = series(rows, topic, Approach::DirectBlocking, databases, delay);
    let spawn = series(rows, topic, Approach::SpawnBlocking, databases, delay);
    let tokio = series(rows, topic, Approach::TokioRusqlite, databases, delay);
    "\n    <h2>"@ + topic.heading() + " - "@ + name + CANVAS_OPEN@ + text::decimal(number)
        + SCRIPT_OPEN@ + text::decimal(number) + LABELS_OPEN@ + text::bracketed(labels)
        + DIRECT_OPEN@ + text::bracketed(direct) + SPAWN_OPEN@ + text::bracketed(spawn)
        + TOKIO_OPEN@ + text::bracketed(tokio) + TITLE_OPEN@ + topic.title() + " - "@ + name
        + AXES_OPEN@ + topic.unit() + CHART_CLOSE@
}

/// The charts of one topic, one for each write delay, on canvases with consecutive numbers.
pub open spec fn charts(
    rows: Seq<Row<StoredMetrics>>,
    topic: Topic,
    first: nat,
    delays: Seq<nat>,
    databases: Seq<nat>,
) -> Seq<char>
    decreases delays.len(),
{
    if delays.len() == 0 {
        Seq::empty()
    } else {
        let last = (first + delays.len() - 1) as nat;
        charts(rows, topic, first, delays.drop_last(), databases) + chart(
            rows,
            topic,
            last,
            delays.last(),
            databases,
        )
    }
}

/// The page of charts along the given axes. The canvases of the latencies are numbered on from
/// those of the reads per second.
pub open spec fn page(
    rows: Seq<Row<StoredMetrics>>,
    delays: Seq<nat>,
    databases: Seq<nat>,
) -> Seq<char> {
    PAGE_HEAD@ + charts(rows, Topic::Throughput, 0, delays, databases) + charts(
        rows,
        Topic::Latency,
        delays.len(),
        delays,
        databases,
    ) + PAGE_FOOT@
}

/// What the bars of one approach show.
fn write_series(
    rows: &Vec<Row<StoredMetrics>>,
    topic: Topic,
    approach: Approach,
    databases: &Vec<u64>,
    delay: u64,
) -> (s: String)
    requires
        stored::latencies_wf(rows@),
    ensures
        s@ == text::bracketed(
            series(rows@, topic, approach, rows::nats(databases@), delay as nat),
        ),
{
    let mut items: Vec<String> = Vec::new();
    let mut i: usize = 0;
    while i < databases.len()
        invariant
            i <= databases@.len(),
            stored::latencies_wf(rows@),
            items@.len() == i,
            forall|k: int|
                0 <= k < i ==> (#[trigger] items@[k])@ == bar(
                    rows@,
                    topic,
                    approach,
                    databases@[k] as nat,
                    delay as nat,
                ),
        decreases databases.len() - i,
    {
        let item = match topic {
            Topic::Throughput => stored::get_value(rows, approach, databases[i], delay).shortest,
            Topic::Latency => latency::latency_text(
                stored::get_latency(rows, approach, databases[i], delay),
            ),
        };
        items.push(item);
        i = i + 1;
    }
    assert(text::views(items@) =~= series(
        rows@,
        topic,
        approach,
        rows::nats(databases@),
        delay as nat,
    ));
    text::bracketed_list(&items)
}

/// Writes one chart.
fn write_chart(
    rows: &Vec<Row<StoredMetrics>>,
    topic: Topic,
    number: u128,
    delay: u64,
    databases: &Vec<u64>,
) -> (s: String)
    requires
        stored::latencies_wf(rows@),
    ensures
        s@ == chart(rows@, topic, number as nat, delay as nat, rows::nats(databases@)),
{
    let number = text::wide_decimal_text(number);
    let name = delay::format_delay(delay);
    let labels = text::number_list(databases);
    let direct = write_series(rows, topic, Approach::DirectBlocking, databases, delay);
    let spawn = write_series(rows, topic, Approach::SpawnBlocking, databases, delay);
    let tokio = write_series(rows, topic, Approach::TokioRusqlite, databases, delay);
    let ghost counts = rows::nats(databases@);
    assert(text::decimals(databases@) =~= Seq::new(
        counts.len(),
        |i: int| text::decimal(counts[i]),
    ));

    let mut s = String::from_str("\n    <h2>");
    s.append(topic.heading_text());
    s.append(" - ");
    s.append(name.as_str());
    s.append(CANVAS_OPEN);
    s.append(number.as_str());
    s.append(SCRIPT_OPEN);
    s.append(number.as_str());
    s.append(LABELS_OPEN);
    s.append(labels.as_str());
    s.append(DIRECT_OPEN);
    s.append(direct.as_str());
    s.append(SPAWN_OPEN);
    s.append(spawn.as_str());
    s.append(TOKIO_OPEN);
    s.append(tokio.as_str());
    s.append(TITLE_OPEN);
    s.append(topic.title_text());
    s.append(" - ");
    s.append(name.as_str());
    s.append(AXES_OPEN);
    s.append(topic.unit_text());
    s.append(CHART_CLOSE);
    s
}

/// Writes the charts of one topic.
fn write_charts(
    rows: &Vec<Row<StoredMetrics>>,
    topic: Topic,
    first: usize,
    delays: &Vec<u64>,
    databases: &Vec<u64>,
) -> (s: String)
    requires
        stored::latencies_wf(rows@),
    ensures
        s@ == charts(rows@, topic, first as nat, rows::nats(delays@), rows::nats(databases@)),
{
    let mut s = String::new();
    let mut i: usize = 0;
    let ghost all = rows::nats(delays@);
    while i < delays.len()
        invariant
            i <= delays@.len(),
            stored::latencies_wf(rows@),
            all == rows::nats(delays@),
            s@ == charts(rows@, topic, first as nat, all.take(i as int), rows::nats(databases@)),
        decreases delays.len() - i,
    {
        assert(all.take(i + 1).drop_last() =~= all.take(i as int));
        let chart = write_chart(rows, topic, first as u128 + i as u128, delays[i], databases);
        s.append(chart.as_str());
        i = i + 1;
    }
    assert(all.take(all.len() as int) =~= all);
    s
}

/// The page of charts: each write delay that occurs has a chart of the reads per second and one of
/// the latencies, and each chart has a bar of each approach for each number of databases that
/// occurs, both in ascending order.
pub fn generate_html_chart(rows: &Vec<Row<StoredMetrics>>) -> (s: String)
    requires
        stored::latencies_wf(rows@),
    ensures
        s@ == page(
            rows@,
            rows::axis_of(rows::delays_of(rows@)),
            rows::axis_of(rows::databases_of(rows@)),
        ),
{
    let delays = rows::ascending_delays(rows);
    let databases = rows::ascending_databases(rows);
    let throughput = write_charts(rows, Topic::Throughput, 0, &delays, &databases);
    let latency = write_charts(rows, Topic::Latency, delays.len(), &delays, &databases);
    let mut s = String::from_str(PAGE_HEAD);
    s.append(throughput.as_str());
    s.append(latency.as_str());
    s.append(PAGE_FOOT);
    s
}

// ---------------------------------------------------------------------------
// Laws
// ---------------------------------------------------------------------------

/// The number of the canvas of the chart of a topic for the write delay at place `index`, where
/// there are `delays` write delays.
pub open spec fn canvas_number(topic: Topic, delays: nat, index: nat) -> nat {
    match topic {
        Topic::Throughput => index,
        Topic::Latency => delays + index,
    }
}

/// No two charts of the page are drawn on canvases with the same number.
pub proof fn canvas_numbers_differ(delays: nat, a: Topic, i: nat, b: Topic, j: nat)
    requires
        i < delays,
        j < delays,
    ensures
        text::decimal(canvas_number(a, delays, i)) == text::decimal(canvas_number(b, delays, j))
            <==> a == b && i == j,
{
    if text::decimal(canvas_number(a, delays, i)) == text::decimal(canvas_number(b, delays, j)) {
        text::decimal_injective(canvas_number(a, delays, i), canvas_number(b, delays, j));
    }
}

/// Each write delay has its chart among those of a topic.
proof fn charts_hold_chart(
    rows: Seq<Row<StoredMetrics>>,
    topic: Topic,
    first: nat,
    delays: Seq<nat>,
    databases: Seq<nat>,
    w: int,
)
    requires
        0 <= w < delays.len(),
    ensures
        text::occurs_in(
            chart(rows, topic, (first + w) as nat, delays[w], databases),
            charts(rows, topic, first, delays, databases),
        ),
    decreases delays.len(),
{
    let own = chart(rows, topic, (first + w) as nat, delays[w], databases);
    let front = delays.drop_last();
    let head = charts(rows, topic, first, front, databases);
    let tail = chart(rows, topic, first + front.len(), delays.last(), databases);
    if w == front.len() {
        text::occurs_between(head, own, Seq::empty());
    } else {
        charts_hold_chart(rows, topic, first, front, databases, w);
        text::occurs_between(Seq::empty(), head, tail);
        text::occurs_through(own, head, head + tail);
    }
}

/// The page shows every topic for every write delay along its axis: the chart occurs in it, on the
/// canvas with its own number.
pub proof fn page_shows_every_delay(
    rows: Seq<Row<StoredMetrics>>,
    topic: Topic,
    delays: Seq<nat>,
    databases: Seq<nat>,
    w: int,
)
    requires
        0 <= w < delays.len(),
    ensures
        text::occurs_in(
            chart(
                rows,
                topic,
                canvas_number(topic, delays.len(), w as nat),
                delays[w],
                databases,
            ),
            page(rows, delays, databases),
        ),
{
    let own = chart(
        rows,
        topic,
        canvas_number(topic, delays.len(), w as nat),
        delays[w],
        databases,
    );
    let first = charts(rows, Topic::Throughput, 0, delays, databases);
    let second = charts(rows, Topic::Latency, delays.len(), delays, databases);
    let whole = page(rows, delays, databases);
    match topic {
        Topic::Throughput => {
            charts_hold_chart(rows, topic, 0, delays, databases, w);
            text::occurs_between(PAGE_HEAD@, first, second + PAGE_FOOT@);
            assert(whole =~= PAGE_HEAD@ + first + (second + PAGE_FOOT@));
            text::occurs_through(own, first, whole);
        },
        Topic::Latency => {
            charts_hold_chart(rows, topic, delays.len(), delays, databases, w);
            text::occurs_between(PAGE_HEAD@ + first, second, PAGE_FOOT@);
            text::occurs_through(own, second, whole);
        },
    }
}

/// Whatever was measured is shown: the page drawn from the rows has the chart of every topic for
/// the write delay of each row, and the row's number of databases is among the labels.
pub proof fn every_row_is_shown(rows: Seq<Row<StoredMetrics>>, topic: Topic, i: int)
    requires
        0 <= i < rows.len(),
    ensures
        ({
            let delays = rows::axis_of(rows::delays_of(rows));
            let databases = rows::axis_of(rows::databases_of(rows));
            &&& databases.contains(rows[i].num_databases as nat)
            &&& exists|w: int|
                0 <= w < delays.len() && #[trigger] delays[w] == rows[i].write_delay_ms
                    && text::occurs_in(
                    chart(
                        rows,
                        topic,
                        canvas_number(topic, delays.len(), w as nat),
                        delays[w],
                        databases,
                    ),
                    page(rows, delays, databases),
                )
        }),
{
    let delays = rows::axis_of(rows::delays_of(rows));
    let databases = rows::axis_of(rows::databases_of(rows));
    rows::axis_holds_each_value_once(rows::delays_of(rows));
    rows::axis_holds_each_value_once(rows::databases_of(rows));
    assert(rows::databases_of(rows)[i] == rows[i].num_databases as nat);
    assert(rows::databases_of(rows).contains(rows[i].num_databases as nat));
    assert(rows::delays_of(rows)[i] == rows[i].write_delay_ms as nat);
    assert(rows::delays_of(rows).contains(rows[i].write_delay_ms as nat));
    assert(delays.contains(rows[i].write_delay_ms as nat));
    let w = choose|w: int| 0 <= w < delays.len() && delays[w] == rows[i].write_delay_ms;
    page_shows_every_delay(rows, topic, delays, databases, w);
}

/// A chart names its write delay, is drawn on the canvas with its number, and has a label for each
/// number of databases and a series for each approach.
pub proof fn chart_shows_its_figures(
    rows: Seq<Row<StoredMetrics>>,
    topic: Topic,
    number: nat,
    delay: nat,
    databases: Seq<nat>,
    labels: Seq<Seq<char>>,
)
    requires
        labels.len() == databases.len(),
        forall|i: int| 0 <= i < labels.len() ==> #[trigger] labels[i]
            == text::decimal(databases[i]),
    ensures
        ({
            let whole = chart(rows, topic, number, delay, databases);
            let name = delay::delay_name(delay);
            let number_text = text::decimal(number);
            let label_list = text::bracketed(labels);
            let direct = text::bracketed(
                series(rows, topic, Approach::DirectBlocking, databases, delay),
            );
            let spawn = text::bracketed(
                series(rows, topic, Approach::SpawnBlocking, databases, delay),
            );
            let tokio = text::bracketed(
                series(rows, topic, Approach::TokioRusqlite, databases, delay),
            );
            &&& text::occurs_in(" - "@ + name + CANVAS_OPEN@, whole)
            &&& text::occurs_in(CANVAS_OPEN@ + number_text + SCRIPT_OPEN@, whole)
            &&& text::occurs_in(SCRIPT_OPEN@ + number_text + LABELS_OPEN@, whole)
            &&& text::occurs_in(LABELS_OPEN@ + label_list + DIRECT_OPEN@, whole)
            &&& text::occurs_in(DIRECT_OPEN@ + direct + SPAWN_OPEN@, whole)
            &&& text::occurs_in(SPAWN_OPEN@ + spawn + TOKIO_OPEN@, whole)
            &&& text::occurs_in(TOKIO_OPEN@ + tokio + TITLE_OPEN@, whole)
            &&& text::occurs_in(" - "@ + name + AXES_OPEN@, whole)
            &&& text::occurs_in(AXES_OPEN@ + topic.unit() + CHART_CLOSE@, whole)
            &&& whole.len()
                == "\n    <h2>"@.len() + topic.heading().len() + " - "@.len() + name.len()
                    + CANVAS_OPEN@.len() + number_text.len() + SCRIPT_OPEN@.len()
                    + number_text.len() + LABELS_OPEN@.len() + label_list.len()
                    + DIRECT_OPEN@.len() + direct.len() + SPAWN_OPEN@.len() + spawn.len()
                    + TOKIO_OPEN@.len() + tokio.len() + TITLE_OPEN@.len() + topic.title().len()
                    + " - "@.len() + name.len() + AXES_OPEN@.len() + topic.unit().len()
                    + CHART_CLOSE@.len()
        }),
{
    assert(labels =~= Seq::new(databases.len(), |i: int| text::decimal(databases[i])));
    let whole = chart(rows, topic, number, delay, databases);
    let name = delay::delay_name(delay);
    let number_text = text::decimal(number);
    let label_list = text::bracketed(labels);
    let direct = text::bracketed(series(rows, topic, Approach::DirectBlocking, databases, delay));
    let spawn = text::bracketed(series(rows, topic, Approach::SpawnBlocking, databases, delay));
    let tokio = text::bracketed(series(rows, topic, Approach::TokioRusqlite, databases, delay));
    let t0 = "\n    <h2>"@;
    let t1 = t0 + topic.heading();
    let t2 = t1 + " - "@;
    let t3 = t2 + name;
    let t4 = t3 + CANVAS_OPEN@;
    let t5 = t4 + number_text;
    let t6 = t5 + SCRIPT_OPEN@;
    let t7 = t6 + number_text;
    let t8 = t7 + LABELS_OPEN@;
    let t9 = t8 + label_list;
    let t10 = t9 + DIRECT_OPEN@;
    let t11 = t10 + direct;
    let t12 = t11 + SPAWN_OPEN@;
    let t13 = t12 + spawn;
    let t14 = t13 + TOKIO_OPEN@;
    let t15 = t14 + tokio;
    let t16 = t15 + TITLE_OPEN@;
    let t17 = t16 + topic.title();
    let t18 = t17 + " - "@;
    let t19 = t18 + name;
    let t20 = t19 + AXES_OPEN@;
    let t21 = t20 + topic.unit();
    let t22 = t21 + CHART_CLOSE@;
    assert(t22 == whole);
    text::occurs_between(Seq::empty(), whole, Seq::empty());
    text::occurs_beginning(t21, CHART_CLOSE@, whole);
    text::occurs_beginning(t20, topic.unit(), whole);
    text::occurs_beginning(t19, AXES_OPEN@, whole);
    text::occurs_beginning(t18, name, whole);
    text::occurs_beginning(t17, " - "@, whole);
    text::occurs_beginning(t16, topic.title(), whole);
    text::occurs_beginning(t15, TITLE_OPEN@, whole);
    text::occurs_beginning(t14, tokio, whole);
    text::occurs_beginning(t13, TOKIO_OPEN@, whole);
    text::occurs_beginning(t12, spawn, whole);
    text::occurs_beginning(t11, SPAWN_OPEN@, whole);
    text::occurs_beginning(t10, direct, whole);
    text::occurs_beginning(t9, DIRECT_OPEN@, whole);
    text::occurs_beginning(t8, label_list, whole);
    text::occurs_beginning(t7, LABELS_OPEN@, whole);
    text::occurs_beginning(t6, number_text, whole);
    text::occurs_beginning(t5, SCRIPT_OPEN@, whole);
    text::occurs_beginning(t4, number_text, whole);
    text::occurs_beginning(t3, CANVAS_OPEN@, whole);
    text::occurs_beginning(t2, name, whole);
    text::occurs_beginning(t1, " - "@, whole);
    text::occurs_end_of_three(t1, " - "@, name, CANVAS_OPEN@, whole);
    text::occurs_end_of_three(t3, CANVAS_OPEN@, number_text, SCRIPT_OPEN@, whole);
    text::occurs_end_of_three(t5, SCRIPT_OPEN@, number_text, LABELS_OPEN@, whole);
    text::occurs_end_of_three(t7, LABELS_OPEN@, label_list, DIRECT_OPEN@, whole);
    text::occurs_end_of_three(t9, DIRECT_OPEN@, direct, SPAWN_OPEN@, whole);
    text::occurs_end_of_three(t11, SPAWN_OPEN@, spawn, TOKIO_OPEN@, whole);
    text::occurs_end_of_three(t13, TOKIO_OPEN@, tokio, TITLE_OPEN@, whole);
    text::occurs_end_of_three(t17, " - "@, name, AXES_OPEN@, whole);
    text::occurs_end_of_three(t19, AXES_OPEN@, topic.unit(), CHART_CLOSE@, whole);
}

/// The page has its head, the charts of the reads per second, those of the latencies numbered on
/// from them, and its foot.
pub proof fn page_has_every_part(
    rows: Seq<Row<StoredMetrics>>,
    delays: Seq<nat>,
    databases: Seq<nat>,
)
    ensures
        ({
            let whole = page(rows, delays, databases);
            let throughput = charts(rows, Topic::Throughput, 0, delays, databases);
            let latency = charts(rows, Topic::Latency, delays.len(), delays, databases);
            &&& text::occurs_in(PAGE_HEAD@ + throughput + latency, whole)
            &&& text::occurs_in(throughput + latency + PAGE_FOOT@, whole)
            &&& whole.len()
                == PAGE_HEAD@.len() + throughput.len() + latency.len() + PAGE_FOOT@.len()
        }),
{
    let whole = page(rows, delays, databases);
    let throughput = charts(rows, Topic::Throughput, 0, delays, databases);
    let latency = charts(rows, Topic::Latency, delays.len(), delays, databases);
    let t0 = PAGE_HEAD@;
    let t1 = t0 + throughput;
    let t2 = t1 + latency;
    let t3 = t2 + PAGE_FOOT@;
    assert(t3 == whole);
    text::occurs_between(Seq::empty(), whole, Seq::empty());
    text::occurs_beginning(t2, PAGE_FOOT@, whole);
    text::occurs_beginning(t1, latency, whole);
    text::occurs_end_of_three(t0, throughput, latency, PAGE_FOOT@, whole);
}

/// One more write delay adds one chart, on the canvas with the next number.
pub proof fn charts_grow_by_one(
    rows: Seq<Row<StoredMetrics>>,
    topic: Topic,
    first: nat,
    delays: Seq<nat>,
    databases: Seq<nat>,
    delay: nat,
)
    ensures
        charts(rows, topic, first, Seq::empty(), databases) == Seq::<char>::empty(),
        charts(rows, topic, first, delays.push(delay), databases) == charts(
            rows,
            topic,
            first,
            delays,
            databases,
        ) + chart(rows, topic, first + delays.len(), delay, databases),
{
    assert(delays.push(delay).drop_last() =~= delays);
}

/// A series has one item for each number of databases, in their order: of the first row with that
/// approach, number of databases and write delay the reads per second in full notation, or the
/// latency; a zero where there is no such row.
pub proof fn series_shows_first_matches(
    rows: Seq<Row<StoredMetrics>>,
    approach: Approach,
    databases: Seq<nat>,
    delay: nat,
    d: int,
    i: int,
)
    requires
        0 <= d < databases.len(),
    ensures
        ({
            let throughput = series(rows, Topic::Throughput, approach, databases, delay);
            let latencies = series(rows, Topic::Latency, approach, databases, delay);
            &&& throughput.len() == databases.len()
            &&& latencies.len() == databases.len()
            &&& rows::is_first_match(rows, i, approach.name(), databases[d], delay) ==> {
                &&& throughput[d] == rows[i].metrics.read_throughput_per_sec.shortest@
                &&& latencies[d] == latency::latency_name(rows[i].metrics.p99_read_latency)
            }
            &&& rows::has_no_match(rows, approach.name(), databases[d], delay) ==> {
                &&& throughput[d] == "0.0"@
                &&& latencies[d] == "0"@
            }
        }),
{
    rows::search_goes_by_every_field(rows, approach.name(), databases[d], delay, i);
    reveal_strlit("0");
    text::decimal_has_no_leading_zero(0);
    assert("0"@ =~= seq!['0']);
}

} // verus!
