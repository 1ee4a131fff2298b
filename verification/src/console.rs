//! What is shown on the terminal.

use crate::approach::Approach;
use crate::delay;
use crate::plan::{Config, Trial};
use crate::text;
use vstd::prelude::*;

verus! {

/// The title of a run.
pub const OPENING: &'static str = "\n\n╔══════════════════════════════════════════════════════════════════════════════╗\n║              SQLite Async Benchmark - Comprehensive Test                     ║\n╚══════════════════════════════════════════════════════════════════════════════╝\n";

/// The line above and below a scenario.
pub const SCENARIO_RULE: &'static str = "━━━━━━━━━━━━━━━━━━━━━━━━━━━━━━━━━━━━━━━━━━━━━━━━━━━━━━━━━━━━━━━━━━━━━━━━━━━━━━━━\n";

/// The title at the end of a run.
pub const CLOSING: &'static str = "\n\n╔══════════════════════════════════════════════════════════════════════════════╗\n║                           BENCHMARK COMPLETE                                 ║\n╚══════════════════════════════════════════════════════════════════════════════╝\n";

/// What is said where stored results hold nothing.
pub const NOTHING_STORED: &'static str = "No results found in CSV file";

// ---------------------------------------------------------------------------
// Models
// ---------------------------------------------------------------------------

/// The settings of a run, and how many measurements and minutes it takes.
pub open spec fn opening_text(config: Config, directory: Seq<char>) -> Seq<char> {
    OPENING@ + "\nConfiguration:\n  Tokio worker threads: "@ + text::decimal(
        config.worker_threads as nat,
    ) + "\n  Readers per DB:       "@ + text::decimal(config.readers_per_db as nat)
        + "\n  Test duration:        "@ + text::decimal(config.duration as nat)
        + " seconds\n  Database counts:      "@ + text::bracketed(
        text::count_decimals(config.num_databases@),
    ) + "\n  Write delays (ms):    "@ + text::bracketed(text::decimals(config.write_delays@))
        + "\n  Output directory:     "@ + directory + "\n\n  Total tests: "@ + text::decimal(
        config.trial_count(),
    ) + " (estimated time: "@ + text::decimal(
        (config.trial_count() * config.duration / 60) as nat,
    ) + " minutes)\n\n"@
}

/// What a scenario is.
pub open spec fn scenario_text(trial: Trial) -> Seq<char> {
    "\n"@ + SCENARIO_RULE@ + "  SCENARIO: "@ + text::decimal(trial.num_databases as nat)
        + " databases, "@ + delay::delay_name(trial.write_delay_ms as nat)
        + " write delay (expected ~"@ + text::decimal(trial.expected_writes as nat) + " writes)\n"@
        + SCENARIO_RULE@
}

/// Which measurement begins.
pub open spec fn progress_text(trial: Trial, total: usize) -> Seq<char> {
    "\n  ["@ + text::decimal(trial.number as nat) + "/"@ + text::decimal(total as nat)
        + "] Running "@ + trial.approach.banner() + "...\n"@
}

/// What is said before a measurement: the scenario, if it is the first measurement of one, and
/// which measurement begins.
pub open spec fn announcement_text(trial: Trial, total: usize) -> Seq<char> {
    if trial.approach == Approach::DirectBlocking {
        scenario_text(trial) + progress_text(trial, total)
    } else {
        progress_text(trial, total)
    }
}

/// What is said after a measurement.
pub open spec fn outcome_text(
    seconds: Seq<char>,
    reads: u64,
    writes: u64,
    percent: Seq<char>,
) -> Seq<char> {
    "  ✓ Completed in "@ + seconds + "s\n    Reads: "@ + text::decimal(reads as nat)
        + ", Writes: "@ + text::decimal(writes as nat) + " ("@ + percent + "% of expected)\n"@
}

/// How charts are drawn from the stored results.
pub open spec fn gnuplot_text(csv: Seq<char>, directory: Seq<char>) -> Seq<char> {
    "gnuplot -e \"datafile='"@ + csv + "'; outdir='"@ + directory + "'\" templates/plot.gp\n"@
}

/// What a run has left.
pub open spec fn closing_text(
    stamp: Seq<char>,
    csv: Seq<char>,
    directory: Seq<char>,
) -> Seq<char> {
    CLOSING@ + "\n  Output files in "@ + directory + ":\n    - benchmark_"@ + stamp
        + ".csv   (raw data)\n    - summary_"@ + stamp
        + ".md      (markdown summary)\n    - charts_"@ + stamp
        + ".html     (interactive charts)\n    - ascii_"@ + stamp
        + ".txt       (text charts)\n\n  To generate gnuplot charts:\n    "@ + gnuplot_text(
        csv,
        directory,
    ) + "\n"@
}

// ---------------------------------------------------------------------------
// A run
// ---------------------------------------------------------------------------

/// What is shown before a run.
pub fn opening(config: &Config, directory: &str) -> (s: String)
    requires
        config.fits(),
    ensures
        s@ == opening_text(*config, directory@),
{
    let workers = text::decimal_text(config.worker_threads as u64);
    let readers = text::decimal_text(config.readers_per_db as u64);
    let duration = text::decimal_text(config.duration);
    let databases = text::count_list(&config.num_databases);
    let delays = text::number_list(&config.write_delays);
    let total = text::decimal_text(config.total_tests() as u64);
    let minutes = text::decimal_text(config.estimated_minutes());
    let mut s = String::from_str(OPENING);
    s.append("\nConfiguration:\n  Tokio worker threads: ");
    s.append(workers.as_str());
    s.append("\n  Readers per DB:       ");
    s.append(readers.as_str());
    s.append("\n  Test duration:        ");
    s.append(duration.as_str());
    s.append(" seconds\n  Database counts:      ");
    s.append(databases.as_str());
    s.append("\n  Write delays (ms):    ");
    s.append(delays.as_str());
    s.append("\n  Output directory:     ");
    s.append(directory);
    s.append("\n\n  Total tests: ");
    s.append(total.as_str());
    s.append(" (estimated time: ");
    s.append(minutes.as_str());
    s.append(" minutes)\n\n");
    s
}

/// What a scenario is.
fn scenario(trial: &Trial) -> (s: String)
    ensures
        s@ == scenario_text(*trial),
{
    let databases = text::decimal_text(trial.num_databases as u64);
    let name = delay::format_delay(trial.write_delay_ms);
    let expected = text::decimal_text(trial.expected_writes);
    let mut s = String::from_str("\n");
    s.append(SCENARIO_RULE);
    s.append("  SCENARIO: ");
    s.append(databases.as_str());
    s.append(" databases, ");
    s.append(name.as_str());
    s.append(" write delay (expected ~");
    s.append(expected.as_str());
    s.append(" writes)\n");
    s.append(SCENARIO_RULE);
    s
}

/// Which measurement begins.
fn progress(trial: &Trial, total: usize) -> (s: String)
    ensures
        s@ == progress_text(*trial, total),
{
    let number = text::decimal_text(trial.number as u64);
    let total = text::decimal_text(total as u64);
    let mut s = String::from_str("\n  [");
    s.append(number.as_str());
    s.append("/");
    s.append(total.as_str());
    s.append("] Running ");
    s.append(trial.approach.progress_name());
    s.append("...\n");
    s
}

/// What is shown before a measurement.
pub fn announcement(trial: &Trial, total: usize) -> (s: String)
    ensures
        s@ == announcement_text(*trial, total),
{
    let line = progress(trial, total);
    match trial.approach {
        Approach::DirectBlocking => {
            let mut s = scenario(trial);
            s.append(line.as_str());
            s
        },
        Approach::SpawnBlocking => line,
        Approach::TokioRusqlite => line,
    }
}

/// What is shown after a measurement that took `seconds` seconds and completed `percent` percent
/// of the expected writes.
pub fn outcome(seconds: &str, reads: u64, writes: u64, percent: &str) -> (s: String)
    ensures
        s@ == outcome_text(seconds@, reads, writes, percent@),
{
    let reads = text::decimal_text(reads);
    let writes = text::decimal_text(writes);
    let mut s = String::from_str("  ✓ Completed in ");
    s.append(seconds);
    s.append("s\n    Reads: ");
    s.append(reads.as_str());
    s.append(", Writes: ");
    s.append(writes.as_str());
    s.append(" (");
    s.append(percent);
    s.append("% of expected)\n");
    s
}

/// What is shown before the stored results are written.
pub fn writing_csv(csv: &str) -> (s: String)
    ensures
        s@ == "\n\n  Writing results to CSV: "@ + csv@ + "\n"@,
{
    let mut s = String::from_str("\n\n  Writing results to CSV: ");
    s.append(csv);
    s.append("\n");
    s
}

/// What is shown before the summary is written.
pub fn writing_summary(summary: &str) -> (s: String)
    ensures
        s@ == "  Writing summary to: "@ + summary@ + "\n"@,
{
    let mut s = String::from_str("  Writing summary to: ");
    s.append(summary);
    s.append("\n");
    s
}

/// What is shown before the charts are drawn.
pub const DRAWING: &'static str = "  Generating plots...\n";

/// What is shown once the charts have been drawn.
pub fn drawn(ascii: &str, html: &str) -> (s: String)
    ensures
        s@ == "    - ASCII charts: "@ + ascii@ + "\n    - HTML charts:  "@ + html@
            + "\n    - For gnuplot:  Use templates/plot.gp with the CSV file\n"@,
{
    let mut s = String::from_str("    - ASCII charts: ");
    s.append(ascii);
    s.append("\n    - HTML charts:  ");
    s.append(html);
    s.append("\n    - For gnuplot:  Use templates/plot.gp with the CSV file\n");
    s
}

/// How charts are drawn from the stored results.
fn gnuplot(csv: &str, directory: &str) -> (s: String)
    ensures
        s@ == gnuplot_text(csv@, directory@),
{
    let mut s = String::from_str("gnuplot -e \"datafile='");
    s.append(csv);
    s.append("'; outdir='");
    s.append(directory);
    s.append("'\" templates/plot.gp\n");
    s
}

/// What is shown after a run.
pub fn closing(stamp: &str, csv: &str, directory: &str) -> (s: String)
    ensures
        s@ == closing_text(stamp@, csv@, directory@),
{
    let command = gnuplot(csv, directory);
    let mut s = String::from_str(CLOSING);
    s.append("\n  Output files in ");
    s.append(directory);
    s.append(":\n    - benchmark_");
    s.append(stamp);
    s.append(".csv   (raw data)\n    - summary_");
    s.append(stamp);
    s.append(".md      (markdown summary)\n    - charts_");
    s.append(stamp);
    s.append(".html     (interactive charts)\n    - ascii_");
    s.append(stamp);
    s.append(".txt       (text charts)\n\n  To generate gnuplot charts:\n    ");
    s.append(command.as_str());
    s.append("\n");
    s
}

// ---------------------------------------------------------------------------
// Drawing anew
// ---------------------------------------------------------------------------

/// What is shown once stored results have been read.
pub fn loaded(count: usize, csv: &str, directory: &str) -> (s: String)
    ensures
        s@ == "Loaded "@ + text::decimal(count as nat) + " results from "@ + csv@
            + "\nOutput directory: "@ + directory@ + "\n"@,
{
    let number = text::decimal_text(count as u64);
    let mut s = String::from_str("Loaded ");
    s.append(number.as_str());
    s.append(" results from ");
    s.append(csv);
    s.append("\nOutput directory: ");
    s.append(directory);
    s.append("\n");
    s
}

/// What is shown once the charts have been drawn anew.
pub fn redrawn(html: &str, ascii: &str, csv: &str, directory: &str) -> (s: String)
    ensures
        s@ == "\n✅ Generated files:\n   - "@ + html@ + "\n   - "@ + ascii@
            + "\n\n   For gnuplot, use the template with your CSV:\n   "@ + gnuplot_text(
            csv@,
            directory@,
        ),
{
    let command = gnuplot(csv, directory);
    let mut s = String::from_str("\n✅ Generated files:\n   - ");
    s.append(html);
    s.append("\n   - ");
    s.append(ascii);
    s.append("\n\n   For gnuplot, use the template with your CSV:\n   ");
    s.append(command.as_str());
    s
}

// ---------------------------------------------------------------------------
// Laws
// ---------------------------------------------------------------------------

/// What is shown before a run has each setting behind its label, the number of measurements, and
/// the whole minutes that they take.
pub proof fn opening_shows_every_setting(
    config: Config,
    directory: Seq<char>,
    minutes: nat,
)
    requires
        minutes * 60 <= config.num_databases@.len() * config.write_delays@.len() * 3
            * config.duration < (minutes + 1) * 60,
    ensures
        ({
            let whole = opening_text(config, directory);
            let workers_text = text::decimal(config.worker_threads as nat);
            let readers_text = text::decimal(config.readers_per_db as nat);
            let duration_text = text::decimal(config.duration as nat);
            let counts = text::bracketed(text::count_decimals(config.num_databases@));
            let delays = text::bracketed(text::decimals(config.write_delays@));
            let total_tests = text::decimal(
                config.num_databases@.len() * config.write_delays@.len() * 3,
            );
            let number = text::decimal(minutes);
            &&& text::occurs_in(
                "\nConfiguration:\n  Tokio worker threads: "@ + workers_text
                    + "\n  Readers per DB:       "@,
                whole,
            )
            &&& text::occurs_in(
                "\n  Readers per DB:       "@ + readers_text + "\n  Test duration:        "@,
                whole,
            )
            &&& text::occurs_in(
                "\n  Test duration:        "@ + duration_text
                    + " seconds\n  Database counts:      "@,
                whole,
            )
            &&& text::occurs_in(
                " seconds\n  Database counts:      "@ + counts + "\n  Write delays (ms):    "@,
                whole,
            )
            &&& text::occurs_in(
                "\n  Write delays (ms):    "@ + delays + "\n  Output directory:     "@,
                whole,
            )
            &&& text::occurs_in(
                "\n  Output directory:     "@ + directory + "\n\n  Total tests: "@,
                whole,
            )
            &&& text::occurs_in("\n\n  Total tests: "@ + total_tests + " (estimated time: "@, whole)
            &&& text::occurs_in(" (estimated time: "@ + number + " minutes)\n\n"@, whole)
            &&& whole.len()
                == OPENING@.len() + "\nConfiguration:\n  Tokio worker threads: "@.len()
                    + workers_text.len() + "\n  Readers per DB:       "@.len()
                    + readers_text.len() + "\n  Test duration:        "@.len()
                    + duration_text.len() + " seconds\n  Database counts:      "@.len()
                    + counts.len() + "\n  Write delays (ms):    "@.len() + delays.len()
                    + "\n  Output directory:     "@.len() + directory.len()
                    + "\n\n  Total tests: "@.len() + total_tests.len()
                    + " (estimated time: "@.len() + number.len() + " minutes)\n\n"@.len()
        }),
{
    assert(minutes == config.trial_count() * config.duration / 60);
    let whole = opening_text(config, directory);
    let workers_text = text::decimal(config.worker_threads as nat);
    let readers_text = text::decimal(config.readers_per_db as nat);
    let duration_text = text::decimal(config.duration as nat);
    let counts = text::bracketed(text::count_decimals(config.num_databases@));
    let delays = text::bracketed(text::decimals(config.write_delays@));
    let total_tests = text::decimal(config.num_databases@.len() * config.write_delays@.len() * 3);
    let number = text::decimal(minutes);
    let t0 = OPENING@;
    let t1 = t0 + "\nConfiguration:\n  Tokio worker threads: "@;
    let t2 = t1 + workers_text;
    let t3 = t2 + "\n  Readers per DB:       "@;
    let t4 = t3 + readers_text;
    let t5 = t4 + "\n  Test duration:        "@;
    let t6 = t5 + duration_text;
    let t7 = t6 + " seconds\n  Database counts:      "@;
    let t8 = t7 + counts;
    let t9 = t8 + "\n  Write delays (ms):    "@;
    let t10 = t9 + delays;
    let t11 = t10 + "\n  Output directory:     "@;
    let t12 = t11 + directory;
    let t13 = t12 + "\n\n  Total tests: "@;
    let t14 = t13 + total_tests;
    let t15 = t14 + " (estimated time: "@;
    let t16 = t15 + number;
    let t17 = t16 + " minutes)\n\n"@;
    assert(t17 == whole);
    text::occurs_between(Seq::empty(), whole, Seq::empty());
    text::occurs_beginning(t16, " minutes)\n\n"@, whole);
    text::occurs_beginning(t15, number, whole);
    text::occurs_beginning(t14, " (estimated time: "@, whole);
    text::occurs_beginning(t13, total_tests, whole);
    text::occurs_beginning(t12, "\n\n  Total tests: "@, whole);
    text::occurs_beginning(t11, directory, whole);
    text::occurs_beginning(t10, "\n  Output directory:     "@, whole);
    text::occurs_beginning(t9, delays, whole);
    text::occurs_beginning(t8, "\n  Write delays (ms):    "@, whole);
    text::occurs_beginning(t7, counts, whole);
    text::occurs_beginning(t6, " seconds\n  Database counts:      "@, whole);
    text::occurs_beginning(t5, duration_text, whole);
    text::occurs_beginning(t4, "\n  Test duration:        "@, whole);
    text::occurs_beginning(t3, readers_text, whole);
    text::occurs_beginning(t2, "\n  Readers per DB:       "@, whole);
    text::occurs_beginning(t1, workers_text, whole);
    text::occurs_end_of_three(
        t0,
        "\nConfiguration:\n  Tokio worker threads: "@,
        workers_text,
        "\n  Readers per DB:       "@,
        whole,
    );
    text::occurs_end_of_three(
        t2,
        "\n  Readers per DB:       "@,
        readers_text,
        "\n  Test duration:        "@,
        whole,
    );
    text::occurs_end_of_three(
        t4,
        "\n  Test duration:        "@,
        duration_text,
        " seconds\n  Database counts:      "@,
        whole,
    );
    text::occurs_end_of_three(
        t6,
        " seconds\n  Database counts:      "@,
        counts,
        "\n  Write delays (ms):    "@,
        whole,
    );
    text::occurs_end_of_three(
        t8,
        "\n  Write delays (ms):    "@,
        delays,
        "\n  Output directory:     "@,
        whole,
    );
    text::occurs_end_of_three(
        t10,
        "\n  Output directory:     "@,
        directory,
        "\n\n  Total tests: "@,
        whole,
    );
    text::occurs_end_of_three(
        t12,
        "\n\n  Total tests: "@,
        total_tests,
        " (estimated time: "@,
        whole,
    );
    text::occurs_end_of_three(t14, " (estimated time: "@, number, " minutes)\n\n"@, whole);
}

/// The line of a scenario has its number of databases, its write delay and the expected writes.
pub proof fn scenario_shows_its_settings(
    trial: Trial,
)
    ensures
        ({
            let whole = scenario_text(trial);
            let num_databases_text = text::decimal(trial.num_databases as nat);
            let name = delay::delay_name(trial.write_delay_ms as nat);
            let expected_writes_text = text::decimal(trial.expected_writes as nat);
            &&& text::occurs_in("  SCENARIO: "@ + num_databases_text + " databases, "@, whole)
            &&& text::occurs_in(" databases, "@ + name + " write delay (expected ~"@, whole)
            &&& text::occurs_in(
                " write delay (expected ~"@ + expected_writes_text + " writes)\n"@,
                whole,
            )
            &&& whole.len()
                == "\n"@.len() + SCENARIO_RULE@.len() + "  SCENARIO: "@.len()
                    + num_databases_text.len() + " databases, "@.len() + name.len()
                    + " write delay (expected ~"@.len() + expected_writes_text.len()
                    + " writes)\n"@.len() + SCENARIO_RULE@.len()
        }),
{
    let whole = scenario_text(trial);
    let num_databases_text = text::decimal(trial.num_databases as nat);
    let name = delay::delay_name(trial.write_delay_ms as nat);
    let expected_writes_text = text::decimal(trial.expected_writes as nat);
    let t0 = "\n"@;
    let t1 = t0 + SCENARIO_RULE@;
    let t2 = t1 + "  SCENARIO: "@;
    let t3 = t2 + num_databases_text;
    let t4 = t3 + " databases, "@;
    let t5 = t4 + name;
    let t6 = t5 + " write delay (expected ~"@;
    let t7 = t6 + expected_writes_text;
    let t8 = t7 + " writes)\n"@;
    let t9 = t8 + SCENARIO_RULE@;
    assert(t9 == whole);
    text::occurs_between(Seq::empty(), whole, Seq::empty());
    text::occurs_beginning(t8, SCENARIO_RULE@, whole);
    text::occurs_beginning(t7, " writes)\n"@, whole);
    text::occurs_beginning(t6, expected_writes_text, whole);
    text::occurs_beginning(t5, " write delay (expected ~"@, whole);
    text::occurs_beginning(t4, name, whole);
    text::occurs_beginning(t3, " databases, "@, whole);
    text::occurs_beginning(t2, num_databases_text, whole);
    text::occurs_beginning(t1, "  SCENARIO: "@, whole);
    text::occurs_end_of_three(t1, "  SCENARIO: "@, num_databases_text, " databases, "@, whole);
    text::occurs_end_of_three(t3, " databases, "@, name, " write delay (expected ~"@, whole);
    text::occurs_end_of_three(
        t5,
        " write delay (expected ~"@,
        expected_writes_text,
        " writes)\n"@,
        whole,
    );
}

/// The line of a measurement has its number, how many there are, and the approach.
pub proof fn progress_shows_the_measurement(
    trial: Trial,
    total: usize,
)
    ensures
        ({
            let whole = progress_text(trial, total);
            let number_text = text::decimal(trial.number as nat);
            let total_text = text::decimal(total as nat);
            let banner = trial.approach.banner();
            &&& text::occurs_in("\n  ["@ + number_text + "/"@, whole)
            &&& text::occurs_in("/"@ + total_text + "] Running "@, whole)
            &&& text::occurs_in("] Running "@ + banner + "...\n"@, whole)
            &&& whole.len()
                == "\n  ["@.len() + number_text.len() + "/"@.len() + total_text.len()
                    + "] Running "@.len() + banner.len() + "...\n"@.len()
        }),
{
    let whole = progress_text(trial, total);
    let number_text = text::decimal(trial.number as nat);
    let total_text = text::decimal(total as nat);
    let banner = trial.approach.banner();
    let t0 = "\n  ["@;
    let t1 = t0 + number_text;
    let t2 = t1 + "/"@;
    let t3 = t2 + total_text;
    let t4 = t3 + "] Running "@;
    let t5 = t4 + banner;
    let t6 = t5 + "...\n"@;
    assert(t6 == whole);
    text::occurs_between(Seq::empty(), whole, Seq::empty());
    text::occurs_beginning(t5, "...\n"@, whole);
    text::occurs_beginning(t4, banner, whole);
    text::occurs_beginning(t3, "] Running "@, whole);
    text::occurs_beginning(t2, total_text, whole);
    text::occurs_beginning(t1, "/"@, whole);
    text::occurs_end_of_three(t1, "/"@, total_text, "] Running "@, whole);
    text::occurs_end_of_three(t3, "] Running "@, banner, "...\n"@, whole);
}

/// A scenario is announced once, before the first of its measurements; each measurement is
/// announced.
pub proof fn scenarios_are_announced_once(trial: Trial, total: usize)
    ensures
        text::occurs_in(progress_text(trial, total), announcement_text(trial, total)),
        trial.approach is DirectBlocking ==> announcement_text(trial, total).len()
            == scenario_text(trial).len() + progress_text(trial, total).len() && text::occurs_in(
            scenario_text(trial),
            announcement_text(trial, total),
        ),
        !(trial.approach is DirectBlocking) ==> announcement_text(trial, total).len()
            == progress_text(trial, total).len(),
{
    let (scenario, progress) = (scenario_text(trial), progress_text(trial, total));
    text::occurs_between(scenario, progress, Seq::empty());
    text::occurs_between(Seq::empty(), scenario, progress);
}

/// What is shown after a measurement has its time, its reads, its writes and their share.
pub proof fn outcome_shows_what_was_measured(
    seconds: Seq<char>,
    reads: u64,
    writes: u64,
    percent: Seq<char>,
)
    ensures
        ({
            let whole = outcome_text(seconds, reads, writes, percent);
            let reads_text = text::decimal(reads as nat);
            let writes_text = text::decimal(writes as nat);
            &&& text::occurs_in("  ✓ Completed in "@ + seconds + "s\n    Reads: "@, whole)
            &&& text::occurs_in("s\n    Reads: "@ + reads_text + ", Writes: "@, whole)
            &&& text::occurs_in(", Writes: "@ + writes_text + " ("@, whole)
            &&& text::occurs_in(" ("@ + percent + "% of expected)\n"@, whole)
            &&& whole.len()
                == "  ✓ Completed in "@.len() + seconds.len() + "s\n    Reads: "@.len()
                    + reads_text.len() + ", Writes: "@.len() + writes_text.len() + " ("@.len()
                    + percent.len() + "% of expected)\n"@.len()
        }),
{
    let whole = outcome_text(seconds, reads, writes, percent);
    let reads_text = text::decimal(reads as nat);
    let writes_text = text::decimal(writes as nat);
    let t0 = "  ✓ Completed in "@;
    let t1 = t0 + seconds;
    let t2 = t1 + "s\n    Reads: "@;
    let t3 = t2 + reads_text;
    let t4 = t3 + ", Writes: "@;
    let t5 = t4 + writes_text;
    let t6 = t5 + " ("@;
    let t7 = t6 + percent;
    let t8 = t7 + "% of expected)\n"@;
    assert(t8 == whole);
    text::occurs_between(Seq::empty(), whole, Seq::empty());
    text::occurs_beginning(t7, "% of expected)\n"@, whole);
    text::occurs_beginning(t6, percent, whole);
    text::occurs_beginning(t5, " ("@, whole);
    text::occurs_beginning(t4, writes_text, whole);
    text::occurs_beginning(t3, ", Writes: "@, whole);
    text::occurs_beginning(t2, reads_text, whole);
    text::occurs_beginning(t1, "s\n    Reads: "@, whole);
    text::occurs_end_of_three(t1, "s\n    Reads: "@, reads_text, ", Writes: "@, whole);
    text::occurs_end_of_three(t3, ", Writes: "@, writes_text, " ("@, whole);
    text::occurs_end_of_three(t5, " ("@, percent, "% of expected)\n"@, whole);
}

/// The command that draws charts names the stored results and the directory.
pub proof fn gnuplot_names_its_files(
    csv: Seq<char>,
    directory: Seq<char>,
)
    ensures
        ({
            let whole = gnuplot_text(csv, directory);
            &&& text::occurs_in("gnuplot -e \"datafile='"@ + csv + "'; outdir='"@, whole)
            &&& text::occurs_in("'; outdir='"@ + directory + "'\" templates/plot.gp\n"@, whole)
            &&& whole.len()
                == "gnuplot -e \"datafile='"@.len() + csv.len() + "'; outdir='"@.len()
                    + directory.len() + "'\" templates/plot.gp\n"@.len()
        }),
{
    let whole = gnuplot_text(csv, directory);
    let t0 = "gnuplot -e \"datafile='"@;
    let t1 = t0 + csv;
    let t2 = t1 + "'; outdir='"@;
    let t3 = t2 + directory;
    let t4 = t3 + "'\" templates/plot.gp\n"@;
    assert(t4 == whole);
    text::occurs_between(Seq::empty(), whole, Seq::empty());
    text::occurs_beginning(t3, "'\" templates/plot.gp\n"@, whole);
    text::occurs_beginning(t2, directory, whole);
    text::occurs_beginning(t1, "'; outdir='"@, whole);
    text::occurs_end_of_three(t1, "'; outdir='"@, directory, "'\" templates/plot.gp\n"@, whole);
}

/// What is shown after a run names the directory and all four files, and how to draw charts.
pub proof fn closing_names_every_file(
    stamp: Seq<char>,
    csv: Seq<char>,
    directory: Seq<char>,
)
    ensures
        ({
            let whole = closing_text(stamp, csv, directory);
            let command = gnuplot_text(csv, directory);
            &&& text::occurs_in("\n  Output files in "@ + directory + ":\n    - benchmark_"@, whole)
            &&& text::occurs_in(
                ":\n    - benchmark_"@ + stamp + ".csv   (raw data)\n    - summary_"@,
                whole,
            )
            &&& text::occurs_in(
                ".csv   (raw data)\n    - summary_"@ + stamp
                    + ".md      (markdown summary)\n    - charts_"@,
                whole,
            )
            &&& text::occurs_in(
                ".md      (markdown summary)\n    - charts_"@ + stamp
                    + ".html     (interactive charts)\n    - ascii_"@,
                whole,
            )
            &&& text::occurs_in(
                ".html     (interactive charts)\n    - ascii_"@ + stamp
                    + ".txt       (text charts)\n\n  To generate gnuplot charts:\n    "@,
                whole,
            )
            &&& text::occurs_in(
                ".txt       (text charts)\n\n  To generate gnuplot charts:\n    "@ + command
                    + "\n"@,
                whole,
            )
            &&& whole.len()
                == CLOSING@.len() + "\n  Output files in "@.len() + directory.len()
                    + ":\n    - benchmark_"@.len() + stamp.len()
                    + ".csv   (raw data)\n    - summary_"@.len() + stamp.len()
                    + ".md      (markdown summary)\n    - charts_"@.len() + stamp.len()
                    + ".html     (interactive charts)\n    - ascii_"@.len() + stamp.len()
                    + ".txt       (text charts)\n\n  To generate gnuplot charts:\n    "@.len()
                    + command.len() + "\n"@.len()
        }),
{
    let whole = closing_text(stamp, csv, directory);
    let command = gnuplot_text(csv, directory);
    let t0 = CLOSING@;
    let t1 = t0 + "\n  Output files in "@;
    let t2 = t1 + directory;
    let t3 = t2 + ":\n    - benchmark_"@;
    let t4 = t3 + stamp;
    let t5 = t4 + ".csv   (raw data)\n    - summary_"@;
    let t6 = t5 + stamp;
    let t7 = t6 + ".md      (markdown summary)\n    - charts_"@;
    let t8 = t7 + stamp;
    let t9 = t8 + ".html     (interactive charts)\n    - ascii_"@;
    let t10 = t9 + stamp;
    let t11 = t10 + ".txt       (text charts)\n\n  To generate gnuplot charts:\n    "@;
    let t12 = t11 + command;
    let t13 = t12 + "\n"@;
    assert(t13 == whole);
    text::occurs_between(Seq::empty(), whole, Seq::empty());
    text::occurs_beginning(t12, "\n"@, whole);
    text::occurs_beginning(t11, command, whole);
    text::occurs_beginning(t10, ".txt       (text charts)\n\n  To generate gnuplot charts:\n    "@, whole);
    text::occurs_beginning(t9, stamp, whole);
    text::occurs_beginning(t8, ".html     (interactive charts)\n    - ascii_"@, whole);
    text::occurs_beginning(t7, stamp, whole);
    text::occurs_beginning(t6, ".md      (markdown summary)\n    - charts_"@, whole);
    text::occurs_beginning(t5, stamp, whole);
    text::occurs_beginning(t4, ".csv   (raw data)\n    - summary_"@, whole);
    text::occurs_beginning(t3, stamp, whole);
    text::occurs_beginning(t2, ":\n    - benchmark_"@, whole);
    text::occurs_beginning(t1, directory, whole);
    text::occurs_end_of_three(
        t0,
        "\n  Output files in "@,
        directory,
        ":\n    - benchmark_"@,
        whole,
    );
    text::occurs_end_of_three(
        t2,
        ":\n    - benchmark_"@,
        stamp,
        ".csv   (raw data)\n    - summary_"@,
        whole,
    );
    text::occurs_end_of_three(
        t4,
        ".csv   (raw data)\n    - summary_"@,
        stamp,
        ".md      (markdown summary)\n    - charts_"@,
        whole,
    );
    text::occurs_end_of_three(
        t6,
        ".md      (markdown summary)\n    - charts_"@,
        stamp,
        ".html     (interactive charts)\n    - ascii_"@,
        whole,
    );
    text::occurs_end_of_three(
        t8,
        ".html     (interactive charts)\n    - ascii_"@,
        stamp,
        ".txt       (text charts)\n\n  To generate gnuplot charts:\n    "@,
        whole,
    );
    text::occurs_end_of_three(
        t10,
        ".txt       (text charts)\n\n  To generate gnuplot charts:\n    "@,
        command,
        "\n"@,
        whole,
    );
}

} // verus!
