//! The figures that the benchmark's reports show.

use crate::approach::Approach;
use crate::rows;
use crate::rows::{find_row, Row};
use vstd::prelude::*;

verus! {

/// A measured number in the two notations that reports use.
#[derive(Debug)]
pub struct Figure {
    /// Rounded to one decimal place.
    pub one_decimal: String,
    /// With as many decimal places as it takes to tell it from any other number.
    pub shortest: String,
}

/// What a figure shows.
pub struct FigureText {
    /// Rounded to one decimal place.
    pub one_decimal: Seq<char>,
    /// With as many decimal places as it takes to tell it from any other number.
    pub shortest: Seq<char>,
}

impl View for Figure {
    type V = FigureText;

    open spec fn view(&self) -> FigureText {
        FigureText { one_decimal: self.one_decimal@, shortest: self.shortest@ }
    }
}

/// The figure shown where nothing was measured.
pub open spec fn zero_figure() -> FigureText {
    FigureText { one_decimal: "0.0"@, shortest: "0.0"@ }
}

impl Figure {
    /// The figure shown where nothing was measured.
    pub fn zero() -> (figure: Self)
        ensures
            figure@ == zero_figure(),
    {
        Figure { one_decimal: String::from_str("0.0"), shortest: String::from_str("0.0") }
    }

    /// The same figure once more.
    pub fn duplicate(&self) -> (figure: Self)
        ensures
            figure@ == self@,
    {
        Figure { one_decimal: self.one_decimal.clone(), shortest: self.shortest.clone() }
    }
}

/// Which figure of a row is asked for.
#[derive(Clone, Copy, Debug, PartialEq, Eq, Structural)]
pub enum Metric {
    /// The share of the expected writes that were completed, in percent.
    WriteCompletion,
    /// Reads per second.
    ReadThroughput,
    /// The 99th percentile of the read latency, in milliseconds.
    P99ReadLatency,
}

/// The figures of one row of the benchmark's reports.
#[derive(Debug)]
pub struct RunMetrics {
    /// The share of the expected writes that were completed, in percent.
    pub write_completion_percent: Figure,
    /// Reads per second.
    pub read_throughput_per_sec: Figure,
    /// The 99th percentile of the read latency, in milliseconds.
    pub p99_read_latency_ms: Figure,
}

impl RunMetrics {
    /// The figure that `metric` asks for.
    pub open spec fn figure(self, metric: Metric) -> FigureText {
        match metric {
            Metric::WriteCompletion => self.write_completion_percent@,
            Metric::ReadThroughput => self.read_throughput_per_sec@,
            Metric::P99ReadLatency => self.p99_read_latency_ms@,
        }
    }
}

/// What the first row about a scenario shows; zero where there is no such row.
pub open spec fn value_of(
    rows: Seq<Row<RunMetrics>>,
    approach: Approach,
    databases: nat,
    delay: nat,
    metric: Metric,
) -> FigureText {
    match rows::first_about(rows, approach.name(), databases, delay) {
        Some(i) => rows[i].metrics.figure(metric),
        None => zero_figure(),
    }
}

/// What the first row about a scenario shows; zero where there is no such row.
pub fn get_value(
    rows: &Vec<Row<RunMetrics>>,
    approach: Approach,
    databases: u64,
    delay: u64,
    metric: Metric,
) -> (figure: Figure)
    ensures
        figure@ == value_of(rows@, approach, databases as nat, delay as nat, metric),
{
    match find_row(rows, approach, databases, delay) {
        Some(i) => {
            let metrics = &rows[i].metrics;
            match metric {
                Metric::WriteCompletion => metrics.write_completion_percent.duplicate(),
                Metric::ReadThroughput => metrics.read_throughput_per_sec.duplicate(),
                Metric::P99ReadLatency => metrics.p99_read_latency_ms.duplicate(),
            }
        },
        None => Figure::zero(),
    }
}

/// The figures of one approach for each number of databases, in full notation.
pub open spec fn series(
    rows: Seq<Row<RunMetrics>>,
    approach: Approach,
    databases: Seq<nat>,
    delay: nat,
    metric: Metric,
) -> Seq<Seq<char>> {
    Seq::new(
        databases.len(),
        |i: int| value_of(rows, approach, databases[i], delay, metric).shortest,
    )
}

/// The figures of one approach for each number of databases, in full notation.
pub fn collect_series(
    rows: &Vec<Row<RunMetrics>>,
    approach: Approach,
    databases: &Vec<u64>,
    delay: u64,
    metric: Metric,
) -> (items: Vec<String>)
    ensures
        crate::text::views(items@) == series(
            rows@,
            approach,
            rows::nats(databases@),
            delay as nat,
            metric,
        ),
{
    let mut items: Vec<String> = Vec::new();
    let mut i: usize = 0;
    while i < databases.len()
        invariant
            i <= databases@.len(),
            items@.len() == i,
            forall|k: int|
                0 <= k < i ==> (#[trigger] items@[k])@ == value_of(
                    rows@,
                    approach,
                    databases@[k] as nat,
                    delay as nat,
                    metric,
                ).shortest,
        decreases databases.len() - i,
    {
        let figure = get_value(rows, approach, databases[i], delay, metric);
        items.push(figure.shortest);
        i = i + 1;
    }
    assert(crate::text::views(items@) =~= series(
        rows@,
        approach,
        rows::nats(databases@),
        delay as nat,
        metric,
    ));
    items
}

// ---------------------------------------------------------------------------
// Laws
// ---------------------------------------------------------------------------

/// A report shows of a scenario what the first row with its approach, number of databases and write
/// delay holds.
pub proof fn first_match_is_shown(
    rows: Seq<Row<RunMetrics>>,
    i: int,
    approach: Approach,
    databases: nat,
    delay: nat,
)
    requires
        rows::is_first_match(rows, i, approach.name(), databases, delay),
    ensures
        ({
            let completion = value_of(rows, approach, databases, delay, Metric::WriteCompletion);
            let throughput = value_of(rows, approach, databases, delay, Metric::ReadThroughput);
            let latency = value_of(rows, approach, databases, delay, Metric::P99ReadLatency);
            let shown = rows[i].metrics;
            &&& completion.one_decimal == shown.write_completion_percent.one_decimal@
            &&& completion.shortest == shown.write_completion_percent.shortest@
            &&& throughput.one_decimal == shown.read_throughput_per_sec.one_decimal@
            &&& throughput.shortest == shown.read_throughput_per_sec.shortest@
            &&& latency.one_decimal == shown.p99_read_latency_ms.one_decimal@
            &&& latency.shortest == shown.p99_read_latency_ms.shortest@
        }),
{
    rows::search_goes_by_every_field(rows, approach.name(), databases, delay, i);
}

/// Where no row has the approach, number of databases and write delay, a zero is shown.
pub proof fn zero_is_shown_without_match(
    rows: Seq<Row<RunMetrics>>,
    approach: Approach,
    databases: nat,
    delay: nat,
    metric: Metric,
)
    requires
        rows::has_no_match(rows, approach.name(), databases, delay),
    ensures
        value_of(rows, approach, databases, delay, metric).one_decimal == "0.0"@,
        value_of(rows, approach, databases, delay, metric).shortest == "0.0"@,
{
    rows::search_goes_by_every_field(rows, approach.name(), databases, delay, 0);
}

/// A series has one item for each number of databases, in their order: what is shown for it, in
/// full notation.
pub proof fn series_follows_the_databases(
    rows: Seq<Row<RunMetrics>>,
    approach: Approach,
    databases: Seq<nat>,
    delay: nat,
    metric: Metric,
    d: int,
)
    ensures
        series(rows, approach, databases, delay, metric).len() == databases.len(),
        0 <= d < databases.len() ==> series(rows, approach, databases, delay, metric)[d]
            == value_of(rows, approach, databases[d], delay, metric).shortest,
{
}

} // verus!
