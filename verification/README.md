# SQLite Async Benchmark

A benchmark that compares three ways of using SQLite under Tokio:

1. **Direct blocking**: SQLite is called directly on a worker thread of the runtime.
2. **spawn_blocking**: SQLite is called through `tokio::task::spawn_blocking`.
3. **tokio-rusqlite**: each database has a thread of its own.

What the benchmark decides, computes and writes stands in a library whose functions carry
contracts that Verus proves. The program around it opens databases, runs tasks, reads the clock and
touches files.

## Layout

- `src/`: the verified library.
- `tests/`: its tests; some of them run the library's statements against SQLite.
- `app/`: the program. Started as `plot`, it draws the reports anew from stored results.

## Running

The benchmark takes `--duration`, `--output-dir`, `--worker-threads`, `--readers-per-db`,
`--write-delays` and `--num-databases`, and leaves four files in the output directory, all named
after the second in which the run began:

| File | Contents |
|------|----------|
| `benchmark_YYYYMMDD_HHMMSS.csv` | raw data |
| `summary_YYYYMMDD_HHMMSS.md` | summary with tables |
| `charts_YYYYMMDD_HHMMSS.html` | interactive charts |
| `ascii_YYYYMMDD_HHMMSS.txt` | text charts |

`plot` takes `--csv` and `--output`, and accepts latencies both in whole milliseconds and to the
microsecond.

## What is trusted

Two contracts are believed rather than proved, and each says so in its doc comment: that
`slice::sort_unstable` sorts, and that `chrono` fills in the fields of a date and a time.
Floating-point numbers stay outside the library: it keeps quotients undivided, latencies in
microseconds, and measured numbers in the notation in which they are shown.
