use sqlite_async_bench::ascii::{generate_ascii_plots, plots_along};
use sqlite_async_bench::charts::generate_html_chart;
use sqlite_async_bench::metrics::{Figure, RunMetrics};
use sqlite_async_bench::plan::Config;
use sqlite_async_bench::rows::Row;
use sqlite_async_bench::summary::write_summary;

fn figure(value: f64) -> Figure {
    Figure { one_decimal: format!("{:.1}", value), shortest: format!("{:?}", value) }
}

fn row(
    approach: &str,
    num_databases: usize,
    write_delay_ms: u64,
    values: (f64, f64, f64),
) -> Row<RunMetrics> {
    Row {
        approach: String::from(approach),
        num_databases,
        write_delay_ms,
        metrics: RunMetrics {
            write_completion_percent: figure(values.0),
            read_throughput_per_sec: figure(values.1),
            p99_read_latency_ms: figure(values.2),
        },
    }
}

/// Two scenarios with the larger delay first; the last approach of the second is missing.
fn sample() -> Vec<Row<RunMetrics>> {
    vec![
        row("direct_blocking", 10, 1000, (2.5, 1834.25, 3001.0)),
        row("spawn_blocking", 10, 1000, (100.0, 91.0, 1002.125)),
        row("tokio_rusqlite", 10, 1000, (99.96, 123.456, 1001.0)),
        row("direct_blocking", 1, 100, (97.0, 25.04, 101.0)),
        row("spawn_blocking", 1, 100, (98.25, 0.1, 105.5)),
        row("direct_blocking", 1, 100, (1.0, 1.0, 1.0)),
    ]
}

const PAGE_HEAD: &str = r#"<!DOCTYPE html>
<html>
<head>
    <title>SQLite Async Benchmark Results</title>
    <script src="https://cdn.jsdelivr.net/npm/chart.js"></script>
    <style>
        body { font-family: -apple-system, BlinkMacSystemFont, 'Segoe UI', Roboto, sans-serif; margin: 20px; background: #1a1a2e; color: #eee; }
        h1 { color: #00d4ff; }
        h2 { color: #00ff88; margin-top: 40px; }
        .chart-container { width: 100%; max-width: 900px; margin: 20px auto; background: #16213e; padding: 20px; border-radius: 10px; }
        .warning { background: #4a1515; border-left: 4px solid #ff6384; padding: 15px; margin: 20px 0; border-radius: 5px; }
        .insight { background: #153a4a; border-left: 4px solid #4bc0c0; padding: 15px; margin: 20px 0; border-radius: 5px; }
    </style>
</head>
<body>
    <h1>SQLite Async Benchmark Results</h1>
    
    <div class="warning">
        <strong>⚠️ Important:</strong> When interpreting results, look at the <strong>Write Completion Ratio</strong> first!
        A low ratio (e.g., 2%) means writer tasks are starving. High read throughput with low write completion
        is a symptom of broken concurrency, not better performance.
    </div>

    <p>Comparing three approaches to SQLite operations in async Rust:</p>
    <ul>
        <li><strong style="color: #ff6384">Direct Blocking</strong> - SQLite calls made directly (blocks workers)</li>
        <li><strong style="color: #36a2eb">spawn_blocking</strong> - Wrapped in tokio::task::spawn_blocking()</li>
        <li><strong style="color: #4bc0c0">tokio-rusqlite</strong> - Dedicated thread per database</li>
    </ul>
"#;

/// The three series of a chart.
type Series = [Vec<f64>; 3];

fn completion_chart(name: &str, id: &str, labels: &[usize], data: &Series) -> String {
    format!(
        r#"
    <h2>Write Completion Ratio - {} Write Delay</h2>
    <div class="insight">Lower is worse! A ratio &lt;100% means writer tasks are starving for worker threads.</div>
    <div class="chart-container">
        <canvas id="{}"></canvas>
    </div>
    <script>
        new Chart(document.getElementById('{}'), {{
            type: 'bar',
            data: {{
                labels: {:?},
                datasets: [
                    {{ label: 'Direct Blocking', data: {:?}, backgroundColor: 'rgba(255, 99, 132, 0.8)', borderColor: 'rgb(255, 99, 132)', borderWidth: 1 }},
                    {{ label: 'spawn_blocking', data: {:?}, backgroundColor: 'rgba(54, 162, 235, 0.8)', borderColor: 'rgb(54, 162, 235)', borderWidth: 1 }},
                    {{ label: 'tokio-rusqlite', data: {:?}, backgroundColor: 'rgba(75, 192, 192, 0.8)', borderColor: 'rgb(75, 192, 192)', borderWidth: 1 }}
                ]
            }},
            options: {{
                responsive: true,
                plugins: {{
                    title: {{ display: true, text: 'Write Completion Ratio (%) - {} Write Delay', color: '#eee', font: {{ size: 16 }} }},
                    legend: {{ labels: {{ color: '#eee' }} }}
                }},
                scales: {{
                    x: {{ title: {{ display: true, text: 'Number of Databases', color: '#eee' }}, ticks: {{ color: '#aaa' }}, grid: {{ color: '#333' }} }},
                    y: {{ title: {{ display: true, text: 'Completion %', color: '#eee' }}, ticks: {{ color: '#aaa' }}, grid: {{ color: '#333' }}, max: 110 }}
                }}
            }}
        }});
    </script>

"#,
        name, id, id, labels, data[0], data[1], data[2], name
    )
}

fn throughput_chart(name: &str, id: &str, labels: &[usize], data: &Series) -> String {
    format!(
        r#"
    <h2>Read Throughput - {} Write Delay</h2>
    <div class="chart-container">
        <canvas id="{}"></canvas>
    </div>
    <script>
        new Chart(document.getElementById('{}'), {{
            type: 'bar',
            data: {{
                labels: {:?},
                datasets: [
                    {{ label: 'Direct Blocking', data: {:?}, backgroundColor: 'rgba(255, 99, 132, 0.8)', borderColor: 'rgb(255, 99, 132)', borderWidth: 1 }},
                    {{ label: 'spawn_blocking', data: {:?}, backgroundColor: 'rgba(54, 162, 235, 0.8)', borderColor: 'rgb(54, 162, 235)', borderWidth: 1 }},
                    {{ label: 'tokio-rusqlite', data: {:?}, backgroundColor: 'rgba(75, 192, 192, 0.8)', borderColor: 'rgb(75, 192, 192)', borderWidth: 1 }}
                ]
            }},
            options: {{
                responsive: true,
                plugins: {{
                    title: {{ display: true, text: 'Read Throughput (requests/sec) - {} Write Delay', color: '#eee', font: {{ size: 16 }} }},
                    legend: {{ labels: {{ color: '#eee' }} }}
                }},
                scales: {{
                    x: {{ title: {{ display: true, text: 'Number of Databases', color: '#eee' }}, ticks: {{ color: '#aaa' }}, grid: {{ color: '#333' }} }},
                    y: {{ title: {{ display: true, text: 'Requests/sec', color: '#eee' }}, ticks: {{ color: '#aaa' }}, grid: {{ color: '#333' }} }}
                }}
            }}
        }});
    </script>

"#,
        name, id, id, labels, data[0], data[1], data[2], name
    )
}

fn latency_chart(name: &str, id: &str, labels: &[usize], data: &Series) -> String {
    format!(
        r#"
    <h2>P99 Read Latency - {} Write Delay</h2>
    <div class="chart-container">
        <canvas id="{}"></canvas>
    </div>
    <script>
        new Chart(document.getElementById('{}'), {{
            type: 'bar',
            data: {{
                labels: {:?},
                datasets: [
                    {{ label: 'Direct Blocking', data: {:?}, backgroundColor: 'rgba(255, 99, 132, 0.8)', borderColor: 'rgb(255, 99, 132)', borderWidth: 1 }},
                    {{ label: 'spawn_blocking', data: {:?}, backgroundColor: 'rgba(54, 162, 235, 0.8)', borderColor: 'rgb(54, 162, 235)', borderWidth: 1 }},
                    {{ label: 'tokio-rusqlite', data: {:?}, backgroundColor: 'rgba(75, 192, 192, 0.8)', borderColor: 'rgb(75, 192, 192)', borderWidth: 1 }}
                ]
            }},
            options: {{
                responsive: true,
                plugins: {{
                    title: {{ display: true, text: 'P99 Read Latency (ms) - {} Write Delay', color: '#eee', font: {{ size: 16 }} }},
                    legend: {{ labels: {{ color: '#eee' }} }}
                }},
                scales: {{
                    x: {{ title: {{ display: true, text: 'Number of Databases', color: '#eee' }}, ticks: {{ color: '#aaa' }}, grid: {{ color: '#333' }} }},
                    y: {{ title: {{ display: true, text: 'Latency (ms)', color: '#eee' }}, ticks: {{ color: '#aaa' }}, grid: {{ color: '#333' }} }}
                }}
            }}
        }});
    </script>

"#,
        name, id, id, labels, data[0], data[1], data[2], name
    )
}

#[test]
fn page_of_charts() {
    let labels = [1, 10];
    let mut expected = String::from(PAGE_HEAD);
    expected.push_str(&completion_chart(
        "100ms",
        "completion0",
        &labels,
        &[vec![97.0, 0.0], vec![98.25, 0.0], vec![0.0, 0.0]],
    ));
    expected.push_str(&completion_chart(
        "1s",
        "completion1",
        &labels,
        &[vec![0.0, 2.5], vec![0.0, 100.0], vec![0.0, 99.96]],
    ));
    expected.push_str(&throughput_chart(
        "100ms",
        "throughput0",
        &labels,
        &[vec![25.04, 0.0], vec![0.1, 0.0], vec![0.0, 0.0]],
    ));
    expected.push_str(&throughput_chart(
        "1s",
        "throughput1",
        &labels,
        &[vec![0.0, 1834.25], vec![0.0, 91.0], vec![0.0, 123.456]],
    ));
    expected.push_str(&latency_chart(
        "100ms",
        "latency0",
        &labels,
        &[vec![101.0, 0.0], vec![105.5, 0.0], vec![0.0, 0.0]],
    ));
    expected.push_str(&latency_chart(
        "1s",
        "latency1",
        &labels,
        &[vec![0.0, 3001.0], vec![0.0, 1002.125], vec![0.0, 1001.0]],
    ));
    expected.push_str("</body></html>\n");
    assert_eq!(generate_html_chart(&sample()), expected);
}

#[test]
fn page_without_results() {
    let expected = format!("{}</body></html>\n", PAGE_HEAD);
    assert_eq!(generate_html_chart(&vec![]), expected);
}

fn config(write_delays: Vec<u64>, num_databases: Vec<usize>) -> Config {
    Config { duration: 60, worker_threads: 4, readers_per_db: 3, write_delays, num_databases }
}

const SUMMARY_HEAD: &str = "# SQLite Async Benchmark Results

Generated: 2025-03-09 07:05:01

## Configuration

| Parameter | Value |
|-----------|-------|
| Worker threads | 4 |
| Readers per DB | 3 |
| Test duration | 60 seconds |
";

const SUMMARY_INSIGHT: &str = "
## Key Insight: Write Completion Ratio

The **write completion ratio** shows what percentage of expected writes actually completed.
A low ratio indicates worker thread starvation in direct blocking mode.

";

const SUMMARY_FOOT: &str = "## Analysis

### Why Direct Blocking Shows High Read Throughput

When direct blocking has a **low write completion ratio** (e.g., 2% of expected writes),
it means writer tasks are starving for worker threads. The reads that DO complete
are opportunistic - they grab the lock during brief windows when writers are
waiting for thread scheduling.

This is **not** better performance - it's a symptom of broken concurrency!

### Recommendation

- **tokio-rusqlite** provides the most predictable latency and fair scheduling
- **spawn_blocking** is a good improvement over direct blocking
- **direct_blocking** should be avoided for long-running operations
";

#[test]
fn summary_of_a_run() {
    let table = "| DBs | Direct Blocking | spawn_blocking | tokio-rusqlite |
|-----|-----------------|----------------|----------------|
";
    let mut expected = String::from(SUMMARY_HEAD);
    expected.push_str("| Database counts | [1, 10] |\n| Write delays (ms) | [1000, 100] |\n");
    expected.push_str(SUMMARY_INSIGHT);
    expected.push_str(&format!(
        "## Results for 1s write delay

### Write Completion (Starvation Indicator)

{}| 1 | 0.0% | 0.0% | 0.0% |
| 10 | 2.5% | 100.0% | 100.0% |

### Read Throughput (requests/sec)

{}| 1 | 0.0 | 0.0 | 0.0 |
| 10 | 1834.2 | 91.0 | 123.5 |

### P99 Read Latency (ms)

{}| 1 | 0.0 | 0.0 | 0.0 |
| 10 | 3001.0 | 1002.1 | 1001.0 |

## Results for 100ms write delay

### Write Completion (Starvation Indicator)

{}| 1 | 97.0% | 98.2% | 0.0% |
| 10 | 0.0% | 0.0% | 0.0% |

### Read Throughput (requests/sec)

{}| 1 | 25.0 | 0.1 | 0.0 |
| 10 | 0.0 | 0.0 | 0.0 |

### P99 Read Latency (ms)

{}| 1 | 101.0 | 105.5 | 0.0 |
| 10 | 0.0 | 0.0 | 0.0 |

",
        table, table, table, table, table, table
    ));
    expected.push_str(SUMMARY_FOOT);
    let written =
        write_summary("2025-03-09 07:05:01", &config(vec![1000, 100], vec![1, 10]), &sample());
    assert_eq!(written, expected);
}

#[test]
fn summary_without_scenarios() {
    let mut expected = String::from(SUMMARY_HEAD);
    expected.push_str("| Database counts | [] |\n| Write delays (ms) | [] |\n");
    expected.push_str(SUMMARY_INSIGHT);
    expected.push_str(SUMMARY_FOOT);
    let written = write_summary("2025-03-09 07:05:01", &config(vec![], vec![]), &sample());
    assert_eq!(written, expected);
}

#[test]
fn text_tables_along_given_axes() {
    let heads = format!(
        "{:>10} {:>15} {:>15} {:>15}\n{}\n",
        "DBs", "Direct", "spawn_block", "tokio-rsql", "-".repeat(60)
    );
    let rule = "=".repeat(80);
    let mut expected =
        String::from("SQLite Async Benchmark Results\n==============================\n\n");
    expected.push_str(&format!(
        "\n{}\nWRITE COMPLETION RATIO - 1s write delay\n(Low % = worker thread starvation)\n{}\n\n{}",
        rule, rule, heads
    ));
    expected.push_str(&format!("{:>10} {:>14.1}% {:>14.1}% {:>14.1}%\n", 10, 2.5, 100.0, 99.96));
    expected.push_str(&format!("{:>10} {:>14.1}% {:>14.1}% {:>14.1}%\n", 1, 0.0, 0.0, 0.0));
    expected.push_str(&format!(
        "\n{}\nREAD THROUGHPUT (req/sec) - 1s write delay\n{}\n\n{}",
        rule, rule, heads
    ));
    expected.push_str(&format!("{:>10} {:>15.1} {:>15.1} {:>15.1}\n", 10, 1834.25, 91.0, 123.456));
    expected.push_str(&format!("{:>10} {:>15.1} {:>15.1} {:>15.1}\n", 1, 0.0, 0.0, 0.0));
    assert_eq!(plots_along(&sample(), &vec![1000], &vec![10, 1]), expected);
}

#[test]
fn text_tables_cover_what_occurs() {
    let rows = sample();
    let written = generate_ascii_plots(&rows);
    let orders = [
        plots_along(&rows, &vec![100, 1000], &vec![1, 10]),
        plots_along(&rows, &vec![100, 1000], &vec![10, 1]),
        plots_along(&rows, &vec![1000, 100], &vec![1, 10]),
        plots_along(&rows, &vec![1000, 100], &vec![10, 1]),
    ];
    assert!(orders.contains(&written));
}

#[test]
fn text_tables_without_results() {
    assert_eq!(
        generate_ascii_plots(&vec![]),
        "SQLite Async Benchmark Results\n==============================\n\n"
    );
}
