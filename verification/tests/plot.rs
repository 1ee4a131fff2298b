use sqlite_async_bench::approach::Approach;
use sqlite_async_bench::latency::Latency;
use sqlite_async_bench::metrics::Figure;
use sqlite_async_bench::plot::bars::{generate_ascii_charts, Bars, BAR_WIDTH};
use sqlite_async_bench::plot::page::generate_html_chart;
use sqlite_async_bench::plot::stored::{
    best_alternative, direct_is_positive, get_latency, get_value, tallest, StoredMetrics,
};
use sqlite_async_bench::plot::tables::{best_approach, print_summary_tables};
use sqlite_async_bench::plot::{bars, page};
use sqlite_async_bench::rows::Row;

/// A number that grows as the value does.
fn rank(value: f64) -> Option<i64> {
    if value.is_nan() {
        return None;
    }
    let bits = value.to_bits() as i64;
    Some(if bits < 0 { i64::MIN - bits } else { bits })
}

fn row(
    approach: &str,
    num_databases: usize,
    write_delay_ms: u64,
    throughput: f64,
    p99: (u64, u64),
) -> Row<StoredMetrics> {
    Row {
        approach: String::from(approach),
        num_databases,
        write_delay_ms,
        metrics: StoredMetrics {
            read_throughput_per_sec: Figure {
                one_decimal: format!("{:.1}", throughput),
                shortest: format!("{:?}", throughput),
            },
            throughput_rank: rank(throughput),
            p99_read_latency: Latency { ms: p99.0, us: p99.1 },
        },
    }
}

fn sample() -> Vec<Row<StoredMetrics>> {
    vec![
        row("direct_blocking", 1, 100, 200.0, (12, 0)),
        row("spawn_blocking", 1, 100, 500.0, (110, 523)),
        row("tokio_rusqlite", 1, 100, 450.5, (110, 500)),
        row("direct_blocking", 10, 100, 0.0, (3000, 0)),
        row("spawn_blocking", 10, 100, 1000.0, (101, 0)),
        row("tokio_rusqlite", 10, 100, 1000.0, (101, 0)),
        row("tokio_rusqlite", 1, 2000, 7.25, (0, 7)),
    ]
}

#[test]
fn ranks_go_by_value() {
    let values = [f64::NEG_INFINITY, -2.0, -0.5, 0.0, 1e-300, 0.5, 1.0, 1.5, 1e300, f64::INFINITY];
    for pair in values.windows(2) {
        assert!(rank(pair[0]) < rank(pair[1]));
    }
    assert_eq!(rank(0.0), Some(0));
    assert_eq!(rank(-0.0), Some(0));
}

#[test]
fn stored_values_are_looked_up() {
    let rows = sample();
    assert_eq!(get_value(&rows, Approach::TokioRusqlite, 1, 100).shortest, "450.5");
    assert_eq!(get_value(&rows, Approach::DirectBlocking, 1, 2000).one_decimal, "0.0");
    assert_eq!(
        get_latency(&rows, Approach::SpawnBlocking, 1, 100),
        Latency { ms: 110, us: 523 }
    );
    assert_eq!(get_latency(&rows, Approach::SpawnBlocking, 1, 2000), Latency { ms: 0, us: 0 });
}

#[test]
fn better_alternative_reads_more() {
    let rows = sample();
    assert_eq!(best_alternative(&rows, 1, 100), Some(1));
    assert_eq!(best_alternative(&rows, 1, 2000), Some(6));
    assert_eq!(best_alternative(&rows, 10, 2000), None);
    let best = best_alternative(&rows, 10, 100);
    assert!(best == Some(4) || best == Some(5));
}

#[test]
fn alternative_that_is_no_number_loses() {
    let rows = vec![
        row("spawn_blocking", 1, 100, f64::NAN, (0, 0)),
        row("tokio_rusqlite", 1, 100, -1.0, (0, 0)),
    ];
    assert_eq!(best_alternative(&rows, 1, 100), Some(1));
    let rows = vec![row("tokio_rusqlite", 1, 100, f64::NAN, (0, 0))];
    assert_eq!(best_alternative(&rows, 1, 100), None);
    // Against a missing row, which counts as zero, a negative number loses too.
    let rows = vec![row("spawn_blocking", 1, 100, -1.0, (0, 0))];
    assert_eq!(best_alternative(&rows, 1, 100), None);
}

#[test]
fn direct_blocking_above_zero() {
    let rows = sample();
    assert!(direct_is_positive(&rows, 1, 100));
    assert!(!direct_is_positive(&rows, 10, 100));
    assert!(!direct_is_positive(&rows, 1, 2000));
    assert!(!direct_is_positive(&vec![row("direct_blocking", 1, 1, f64::NAN, (0, 0))], 1, 1));
    assert!(!direct_is_positive(&vec![row("direct_blocking", 1, 1, -3.0, (0, 0))], 1, 1));
}

#[test]
fn tallest_bar_of_a_chart() {
    let rows = sample();
    let top = tallest(&rows, &vec![1, 10], 100);
    assert!(top == Some(4) || top == Some(5));
    assert_eq!(tallest(&rows, &vec![1], 100), Some(1));
    assert_eq!(tallest(&rows, &vec![1, 10], 2000), Some(6));
    assert_eq!(tallest(&rows, &vec![], 100), None);
    assert_eq!(tallest(&rows, &vec![10], 2000), None);
    assert_eq!(tallest(&vec![row("direct_blocking", 1, 1, -3.0, (0, 0))], &vec![1], 1), None);
}

#[test]
fn shortest_latency_is_named_best() {
    let ms = |ms: u64| Latency { ms, us: 0 };
    assert_eq!(best_approach(ms(1), ms(2), ms(3)), "direct");
    assert_eq!(best_approach(ms(3), ms(1), ms(2)), "spawn_block");
    assert_eq!(best_approach(ms(3), ms(2), ms(1)), "tokio-rsql");
    assert_eq!(best_approach(ms(1), ms(1), ms(2)), "spawn_block");
    assert_eq!(best_approach(ms(1), ms(2), ms(1)), "tokio-rsql");
    assert_eq!(best_approach(ms(2), ms(1), ms(1)), "tokio-rsql");
    assert_eq!(best_approach(ms(1), ms(1), ms(1)), "tokio-rsql");
    let (long, short) = (Latency { ms: 5, us: 2 }, Latency { ms: 5, us: 1 });
    assert_eq!(best_approach(short, long, long), "direct");
}

fn throughput_line(databases: u64, values: [f64; 3], gain: &str) -> String {
    format!(
        "{:>10} {:>15.1} {:>15.1} {:>15.1} {:>12}\n",
        databases, values[0], values[1], values[2], gain
    )
}

fn latency_line(databases: u64, values: [&str; 3], best: &str) -> String {
    format!(
        "{:>10} {:>15} {:>15} {:>15} {:>12}\n",
        databases, values[0], values[1], values[2], best
    )
}

fn table_heads(last: &str) -> String {
    format!(
        "{:>10} {:>15} {:>15} {:>15} {:>12}\n{}\n",
        "DBs", "Direct", "spawn_block", "tokio-rsql", last, "─".repeat(70)
    )
}

#[test]
fn tables_on_the_terminal() {
    let rule = "═".repeat(78);
    let mut expected = format!(
        "\n╔{}╗\n║                         BENCHMARK SUMMARY                                    ║\n╚{}╝\n",
        rule, rule
    );
    expected.push_str("\n━━━ Read Throughput (req/sec) - 2s write delay ━━━\n\n");
    expected.push_str(&table_heads("Best Gain"));
    expected.push_str(&throughput_line(1, [0.0, 0.0, 7.25], "∞"));
    expected.push_str(&throughput_line(10, [0.0, 0.0, 0.0], "∞"));
    expected.push_str("\n━━━ Read Throughput (req/sec) - 100ms write delay ━━━\n\n");
    expected.push_str(&table_heads("Best Gain"));
    expected.push_str(&throughput_line(1, [200.0, 500.0, 450.5], "2.5x"));
    expected.push_str(&throughput_line(10, [0.0, 1000.0, 1000.0], "∞"));
    expected.push_str("\n━━━ P99 Read Latency (ms) - 2s write delay ━━━\n\n");
    expected.push_str(&table_heads("Best"));
    expected.push_str(&latency_line(1, ["0", "0", "0.007"], "spawn_block"));
    expected.push_str(&latency_line(10, ["0", "0", "0"], "tokio-rsql"));
    expected.push_str("\n━━━ P99 Read Latency (ms) - 100ms write delay ━━━\n\n");
    expected.push_str(&table_heads("Best"));
    expected.push_str(&latency_line(1, ["12", "110.523", "110.5"], "direct"));
    expected.push_str(&latency_line(10, ["3000", "101", "101"], "tokio-rsql"));
    let quotients: Vec<String> = [7.25 / 0.0, 0.0 / 0.0, 500.0 / 200.0, 1000.0 / 0.0]
        .iter()
        .map(|quotient: &f64| format!("{:.1}", quotient))
        .collect();
    let written = print_summary_tables(&sample(), &vec![2000, 100], &vec![1, 10], &quotients);
    assert_eq!(written, expected);
}

const PAGE_HEAD: &str = r#"<!DOCTYPE html>
<html>
<head>
    <title>SQLite Async Benchmark Results</title>
    <script src="https://cdn.jsdelivr.net/npm/chart.js"></script>
    <style>
        body { font-family: -apple-system, BlinkMacSystemFont, 'Segoe UI', Roboto, sans-serif; margin: 20px; background: #1a1a2e; color: #eee; }
        h1 { color: #00d4ff; }
        h2 { color: #00ff88; margin-top: 40px; }
        .chart-container { width: 100%; max-width: 900px; margin: 20px auto; background: #16213e; padding: 20px; border-radius: 10px; }
        canvas { background: #16213e; }
    </style>
</head>
<body>
    <h1>SQLite Async Benchmark Results (Regenerated)</h1>
    
    <p>Comparing three approaches to SQLite operations in async Rust:</p>
    <ul>
        <li><strong style="color: #ff6384">Direct Blocking</strong> - SQLite calls made directly (blocks workers)</li>
        <li><strong style="color: #36a2eb">spawn_blocking</strong> - Wrapped in tokio::task::spawn_blocking()</li>
        <li><strong style="color: #4bc0c0">tokio-rusqlite</strong> - Dedicated thread per database</li>
    </ul>
"#;

fn throughput_chart(name: &str, number: usize, labels: &[usize], data: &[Vec<f64>; 3]) -> String {
    format!(
        r#"
    <h2>Read Throughput - {} Write Delay</h2>
    <div class="chart-container">
        <canvas id="chart{}"></canvas>
    </div>
    <script>
        new Chart(document.getElementById('chart{}'), {{
            type: 'bar',
            data: {{
                labels: {:?},
                datasets: [
                    {{
                        label: 'Direct Blocking',
                        data: {:?},
                        backgroundColor: 'rgba(255, 99, 132, 0.8)',
                        borderColor: 'rgb(255, 99, 132)',
                        borderWidth: 1
                    }},
                    {{
                        label: 'spawn_blocking',
                        data: {:?},
                        backgroundColor: 'rgba(54, 162, 235, 0.8)',
                        borderColor: 'rgb(54, 162, 235)',
                        borderWidth: 1
                    }},
                    {{
                        label: 'tokio-rusqlite',
                        data: {:?},
                        backgroundColor: 'rgba(75, 192, 192, 0.8)',
                        borderColor: 'rgb(75, 192, 192)',
                        borderWidth: 1
                    }}
                ]
            }},
            options: {{
                responsive: true,
                plugins: {{
                    title: {{
                        display: true,
                        text: 'Read Throughput (requests/sec) - {} Write Delay',
                        color: '#eee',
                        font: {{ size: 16 }}
                    }},
                    legend: {{
                        labels: {{ color: '#eee' }}
                    }}
                }},
                scales: {{
                    x: {{
                        title: {{ display: true, text: 'Number of Databases', color: '#eee' }},
                        ticks: {{ color: '#aaa' }},
                        grid: {{ color: '#333' }}
                    }},
                    y: {{
                        title: {{ display: true, text: 'Requests/sec', color: '#eee' }},
                        ticks: {{ color: '#aaa' }},
                        grid: {{ color: '#333' }}
                    }}
                }}
            }}
        }});
    </script>

"#,
        name, number, number, labels, data[0], data[1], data[2], name
    )
}

fn latency_chart(name: &str, number: usize, labels: &[usize], data: [&str; 3]) -> String {
    format!(
        r#"
    <h2>P99 Read Latency - {} Write Delay</h2>
    <div class="chart-container">
        <canvas id="chart{}"></canvas>
    </div>
    <script>
        new Chart(document.getElementById('chart{}'), {{
            type: 'bar',
            data: {{
                labels: {:?},
                datasets: [
                    {{
                        label: 'Direct Blocking',
                        data: {},
                        backgroundColor: 'rgba(255, 99, 132, 0.8)',
                        borderColor: 'rgb(255, 99, 132)',
                        borderWidth: 1
                    }},
                    {{
                        label: 'spawn_blocking',
                        data: {},
                        backgroundColor: 'rgba(54, 162, 235, 0.8)',
                        borderColor: 'rgb(54, 162, 235)',
                        borderWidth: 1
                    }},
                    {{
                        label: 'tokio-rusqlite',
                        data: {},
                        backgroundColor: 'rgba(75, 192, 192, 0.8)',
                        borderColor: 'rgb(75, 192, 192)',
                        borderWidth: 1
                    }}
                ]
            }},
            options: {{
                responsive: true,
                plugins: {{
                    title: {{
                        display: true,
                        text: 'P99 Read Latency (ms) - {} Write Delay',
                        color: '#eee',
                        font: {{ size: 16 }}
                    }},
                    legend: {{
                        labels: {{ color: '#eee' }}
                    }}
                }},
                scales: {{
                    x: {{
                        title: {{ display: true, text: 'Number of Databases', color: '#eee' }},
                        ticks: {{ color: '#aaa' }},
                        grid: {{ color: '#333' }}
                    }},
                    y: {{
                        title: {{ display: true, text: 'Latency (ms)', color: '#eee' }},
                        ticks: {{ color: '#aaa' }},
                        grid: {{ color: '#333' }}
                    }}
                }}
            }}
        }});
    </script>

"#,
        name, number, number, labels, data[0], data[1], data[2], name
    )
}

#[test]
fn page_of_charts_drawn_anew() {
    let labels = [1, 10];
    let mut expected = String::from(PAGE_HEAD);
    expected.push_str(&throughput_chart(
        "100ms",
        0,
        &labels,
        &[vec![200.0, 0.0], vec![500.0, 1000.0], vec![450.5, 1000.0]],
    ));
    expected.push_str(&throughput_chart(
        "2s",
        1,
        &labels,
        &[vec![0.0, 0.0], vec![0.0, 0.0], vec![7.25, 0.0]],
    ));
    expected.push_str(&latency_chart(
        "100ms",
        2,
        &labels,
        ["[12, 3000]", "[110.523, 101]", "[110.5, 101]"],
    ));
    expected.push_str(&latency_chart("2s", 3, &labels, ["[0, 0]", "[0, 0]", "[0.007, 0]"]));
    expected.push_str("</body></html>\n");
    assert_eq!(generate_html_chart(&sample()), expected);
    assert_eq!(page::FILE_NAME, "charts_regenerated.html");
}

#[test]
fn page_drawn_anew_without_results() {
    assert_eq!(generate_html_chart(&vec![]), format!("{}</body></html>\n", PAGE_HEAD));
}

#[test]
fn bar_charts_in_text() {
    let length = |value: f64, top: f64| (value / top * BAR_WIDTH as f64) as usize;
    let top = 1000.0;
    let lengths = vec![
        vec![
            Bars {
                direct: length(200.0, top),
                spawn: length(500.0, top),
                tokio: length(450.5, top),
            },
            Bars { direct: length(0.0, top), spawn: length(1000.0, top), tokio: 50 },
        ],
        vec![
            Bars { direct: 0, spawn: 0, tokio: length(7.25, 7.25) },
            Bars { direct: 0, spawn: 0, tokio: 0 },
        ],
    ];
    let mut expected =
        String::from("SQLite Async Benchmark - ASCII Charts\n======================================\n");
    expected.push_str("\n\n=== Read Throughput (req/sec) - 100ms ===\n\n");
    expected.push_str(&format!(
        "1  databases:\n  Direct:  |{}| 200.0\n  Spawn:   |{}| 500.0\n  Tokio:   |{}| 450.5\n\n",
        "█".repeat(10),
        "▓".repeat(25),
        "░".repeat(22)
    ));
    expected.push_str(&format!(
        "10  databases:\n  Direct:  || 0.0\n  Spawn:   |{}| 1000.0\n  Tokio:   |{}| 1000.0\n\n",
        "▓".repeat(50),
        "░".repeat(50)
    ));
    expected.push_str("\n\n=== Read Throughput (req/sec) - 2s ===\n\n");
    expected.push_str(&format!(
        "1  databases:\n  Direct:  || 0.0\n  Spawn:   || 0.0\n  Tokio:   |{}| 7.2\n\n",
        "░".repeat(50)
    ));
    expected.push_str(
        "10  databases:\n  Direct:  || 0.0\n  Spawn:   || 0.0\n  Tokio:   || 0.0\n\n",
    );
    let written = generate_ascii_charts(&sample(), &vec![100, 2000], &vec![1, 10], &lengths);
    assert_eq!(written, expected);
    assert_eq!(bars::FILE_NAME, "ascii_regenerated.txt");
}
