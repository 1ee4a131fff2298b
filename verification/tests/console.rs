use sqlite_async_bench::approach::Approach;
use sqlite_async_bench::console::{
    announcement, closing, drawn, loaded, opening, outcome, redrawn, writing_csv, writing_summary,
    DRAWING, NOTHING_STORED,
};
use sqlite_async_bench::plan::{Config, Trial};

fn trial(approach: Approach) -> Trial {
    Trial {
        number: 2,
        num_databases: 50,
        write_delay_ms: 10000,
        expected_writes: 600,
        approach,
    }
}

#[test]
fn opening_shows_the_settings() {
    let config = Config {
        duration: 120,
        worker_threads: 4,
        readers_per_db: 3,
        write_delays: vec![100, 1000, 10000],
        num_databases: vec![1, 10, 50, 100],
    };
    assert!(config.check());
    let rule = "═".repeat(78);
    let expected = format!(
        "\n\n╔{}╗\n║              SQLite Async Benchmark - Comprehensive Test                     ║\n╚{}╝\n\
         \nConfiguration:\n\
         \x20 Tokio worker threads: 4\n\
         \x20 Readers per DB:       3\n\
         \x20 Test duration:        120 seconds\n\
         \x20 Database counts:      [1, 10, 50, 100]\n\
         \x20 Write delays (ms):    [100, 1000, 10000]\n\
         \x20 Output directory:     results\n\
         \n\
         \x20 Total tests: 36 (estimated time: 72 minutes)\n\
         \n",
        rule, rule
    );
    assert_eq!(opening(&config, "results"), expected);
}

#[test]
fn first_measurement_of_a_scenario_announces_it() {
    let rule = "━".repeat(80);
    let expected = format!(
        "\n{}\n  SCENARIO: 50 databases, 10s write delay (expected ~600 writes)\n{}\n\
         \n  [2/36] Running DIRECT BLOCKING...\n",
        rule, rule
    );
    assert_eq!(announcement(&trial(Approach::DirectBlocking), 36), expected);
}

#[test]
fn later_measurements_announce_themselves() {
    assert_eq!(
        announcement(&trial(Approach::SpawnBlocking), 36),
        "\n  [2/36] Running SPAWN_BLOCKING...\n"
    );
    assert_eq!(
        announcement(&trial(Approach::TokioRusqlite), 36),
        "\n  [2/36] Running TOKIO-RUSQLITE...\n"
    );
}

#[test]
fn outcome_of_a_measurement() {
    assert_eq!(
        outcome(&format!("{:.1}", 60.04), 1234, 56, &format!("{:.1}", 56.0 / 60.0 * 100.0)),
        "  ✓ Completed in 60.0s\n    Reads: 1234, Writes: 56 (93.3% of expected)\n"
    );
}

#[test]
fn files_are_announced() {
    assert_eq!(writing_csv("results/a.csv"), "\n\n  Writing results to CSV: results/a.csv\n");
    assert_eq!(writing_summary("results/a.md"), "  Writing summary to: results/a.md\n");
    assert_eq!(DRAWING, "  Generating plots...\n");
    assert_eq!(
        drawn("results/a.txt", "results/a.html"),
        "    - ASCII charts: results/a.txt\n    - HTML charts:  results/a.html\n\
         \x20   - For gnuplot:  Use templates/plot.gp with the CSV file\n"
    );
}

#[test]
fn closing_lists_the_files() {
    let rule = "═".repeat(78);
    let expected = format!(
        "\n\n╔{}╗\n║                           BENCHMARK COMPLETE                                 ║\n╚{}╝\n\
         \n\
         \x20 Output files in out:\n\
         \x20   - benchmark_S.csv   (raw data)\n\
         \x20   - summary_S.md      (markdown summary)\n\
         \x20   - charts_S.html     (interactive charts)\n\
         \x20   - ascii_S.txt       (text charts)\n\
         \n\
         \x20 To generate gnuplot charts:\n\
         \x20   gnuplot -e \"datafile='out/benchmark_S.csv'; outdir='out'\" templates/plot.gp\n\
         \n",
        rule, rule
    );
    assert_eq!(closing("S", "out/benchmark_S.csv", "out"), expected);
}

#[test]
fn messages_of_drawing_anew() {
    assert_eq!(NOTHING_STORED, "No results found in CSV file");
    assert_eq!(
        loaded(12, "a/b.csv", "a"),
        "Loaded 12 results from a/b.csv\nOutput directory: a\n"
    );
    assert_eq!(
        redrawn("a/x.html", "a/y.txt", "a/b.csv", "a"),
        "\n✅ Generated files:\n   - a/x.html\n   - a/y.txt\n\n\
         \x20  For gnuplot, use the template with your CSV:\n\
         \x20  gnuplot -e \"datafile='a/b.csv'; outdir='a'\" templates/plot.gp\n"
    );
}
