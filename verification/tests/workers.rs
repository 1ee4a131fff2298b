use sqlite_async_bench::approach::Approach;
use sqlite_async_bench::stats::TestResults;
use sqlite_async_bench::workers::{
    assemble, can_assemble, grace_period, plan_course, Order, Pause, Role, Step, Worker,
};

fn writer(database: usize) -> Worker {
    Worker { role: Role::Writer, database, next_block: database as u64 * 10000 }
}

fn reader(database: usize) -> Worker {
    Worker { role: Role::Reader, database, next_block: 0 }
}

#[test]
fn writers_start_before_readers() {
    assert!(can_assemble(3, 2));
    assert_eq!(
        assemble(3, 2),
        vec![
            writer(0),
            writer(1),
            writer(2),
            reader(0),
            reader(0),
            reader(1),
            reader(1),
            reader(2),
            reader(2),
        ]
    );
}

#[test]
fn teams_of_no_databases_or_no_readers() {
    assert!(assemble(0, 3).is_empty());
    assert_eq!(assemble(2, 0), vec![writer(0), writer(1)]);
}

#[test]
fn teams_beyond_machine_numbers_are_refused() {
    assert!(can_assemble(0, usize::MAX));
    assert!(can_assemble(1, usize::MAX - 1));
    assert!(!can_assemble(1, usize::MAX));
    assert!(!can_assemble(2, usize::MAX / 2));
    assert!(!can_assemble(usize::MAX, 0));
}

#[test]
fn steps_until_stopped() {
    assert_eq!(writer(2).next_step(false), Step::Write { block_num: 20000 });
    assert_eq!(reader(2).next_step(false), Step::Read);
    assert_eq!(writer(2).next_step(true), Step::Finish);
    assert_eq!(reader(2).next_step(true), Step::Finish);
}

#[test]
fn direct_writer_yields_and_counts_up() {
    let mut worker = writer(1);
    let mut results = TestResults::new();
    let pause = worker.complete(Approach::DirectBlocking, 77, &mut results);
    assert_eq!(pause, Pause::Yield);
    assert_eq!(worker.next_step(false), Step::Write { block_num: 10001 });
    assert_eq!(results.write_latencies_us, vec![77]);
    assert_eq!(results.write_ops_completed, 1);
    assert_eq!(results.read_requests_completed, 0);
}

#[test]
fn other_writers_proceed_at_once() {
    for approach in [Approach::SpawnBlocking, Approach::TokioRusqlite] {
        let mut worker = writer(0);
        let mut results = TestResults::new();
        assert_eq!(worker.complete(approach, 5, &mut results), Pause::Proceed);
        assert_eq!(worker.complete(approach, 6, &mut results), Pause::Proceed);
        assert_eq!(worker.next_block, 2);
        assert_eq!(results.write_latencies_us, vec![5, 6]);
    }
}

#[test]
fn readers_sleep_for_a_millisecond() {
    for approach in
        [Approach::DirectBlocking, Approach::SpawnBlocking, Approach::TokioRusqlite]
    {
        let mut worker = reader(4);
        let mut results = TestResults::new();
        let pause = worker.complete(approach, 12, &mut results);
        assert_eq!(pause, Pause::Sleep { ms: 1 });
        assert_eq!(worker, reader(4));
        assert_eq!(results.read_latencies_us, vec![12]);
        assert_eq!(results.write_ops_completed, 0);
    }
}

#[test]
fn writers_do_not_meet_within_their_share() {
    let mut first = writer(0);
    let mut results = TestResults::new();
    for _ in 0..9999 {
        first.complete(Approach::SpawnBlocking, 1, &mut results);
    }
    assert_eq!(first.next_block, 9999);
    assert!(first.next_block < writer(1).next_block);
}

#[test]
fn only_direct_blocking_is_waited_for_with_a_limit() {
    assert_eq!(grace_period(Approach::DirectBlocking, 100), Some(1100));
    assert_eq!(grace_period(Approach::DirectBlocking, 0), Some(1000));
    assert_eq!(grace_period(Approach::SpawnBlocking, 100), None);
    assert_eq!(grace_period(Approach::TokioRusqlite, u64::MAX), None);
}

#[test]
fn course_of_a_measurement() {
    let orders = plan_course(Approach::DirectBlocking, 1, 1, 60, 250);
    assert_eq!(
        orders,
        vec![
            Order::OpenDatabases { count: 1 },
            Order::Start { worker: writer(0) },
            Order::Start { worker: reader(0) },
            Order::Run { secs: 60 },
            Order::Stop,
            Order::Join { limit_ms: Some(1250) },
            Order::Join { limit_ms: Some(1250) },
        ]
    );
}

#[test]
fn course_joins_every_task_that_it_starts() {
    let orders = plan_course(Approach::TokioRusqlite, 10, 3, 5, 100);
    let starts = orders.iter().filter(|o| matches!(o, Order::Start { .. })).count();
    let joins = orders
        .iter()
        .filter(|o| matches!(o, Order::Join { limit_ms: None }))
        .count();
    assert_eq!(starts, 40);
    assert_eq!(joins, 40);
    assert_eq!(orders.len(), 83);
    assert_eq!(orders[41], Order::Run { secs: 5 });
    assert_eq!(orders[42], Order::Stop);
}
