//! What the tasks of a measurement do: who works on which database, what each does next, and how
//! long it pauses in between.

use crate::approach::Approach;
use crate::stats::TestResults;
use vstd::prelude::*;

verus! {

/// How far the first block numbers of neighbouring databases lie apart.
pub const BLOCKS_PER_DATABASE: u64 = 10000;

/// How long a reader pauses between two reads, in milliseconds.
pub const READ_PAUSE_MS: u64 = 1;

/// How much longer than a write the end of a task is waited for, in milliseconds.
pub const GRACE_MS: u64 = 1000;

// ---------------------------------------------------------------------------
// Who works on which database
// ---------------------------------------------------------------------------

/// What a task is there for.
#[derive(Clone, Copy, Debug, PartialEq, Eq, Structural)]
pub enum Role {
    /// It adds blocks to a database.
    Writer,
    /// It reads from a database.
    Reader,
}

/// A task of a measurement.
#[derive(Clone, Copy, Debug, PartialEq, Eq, Structural)]
pub struct Worker {
    /// What it is there for.
    pub role: Role,
    /// The database that it works on.
    pub database: usize,
    /// The number of the next block that it adds, if it adds any.
    pub next_block: u64,
}

/// The writer of a database.
pub open spec fn writer(database: int) -> Worker {
    Worker {
        role: Role::Writer,
        database: database as usize,
        next_block: (database * BLOCKS_PER_DATABASE) as u64,
    }
}

/// A reader of a database.
pub open spec fn reader(database: int) -> Worker {
    Worker { role: Role::Reader, database: database as usize, next_block: 0 }
}

/// The tasks of a measurement in the order in which they start: the writer of each database, then
/// the readers of each database.
pub open spec fn team(databases: nat, readers: nat) -> Seq<Worker> {
    Seq::new(
        databases + databases * readers,
        |k: int|
            if k < databases {
                writer(k)
            } else {
                reader((k - databases) / readers as int)
            },
    )
}

/// The number of tasks and all first block numbers are machine numbers.
pub open spec fn team_fits(databases: nat, readers: nat) -> bool {
    &&& databases + databases * readers <= usize::MAX
    &&& databases > 0 ==> (databases - 1) * BLOCKS_PER_DATABASE <= u64::MAX
}

/// Whether the number of tasks and all first block numbers are machine numbers.
pub fn can_assemble(databases: usize, readers: usize) -> (ok: bool)
    ensures
        ok == team_fits(databases as nat, readers as nat),
{
    if databases > 0 && (databases - 1) as u64 > u64::MAX / BLOCKS_PER_DATABASE {
        return false;
    }
    match databases.checked_mul(readers) {
        Some(all) => all <= usize::MAX - databases,
        None => false,
    }
}

/// The tasks of a measurement in the order in which they start.
pub fn assemble(databases: usize, readers: usize) -> (workers: Vec<Worker>)
    requires
        team_fits(databases as nat, readers as nat),
    ensures
        workers@ == team(databases as nat, readers as nat),
{
    let mut workers: Vec<Worker> = Vec::new();
    let mut i: usize = 0;
    while i < databases
        invariant
            i <= databases,
            team_fits(databases as nat, readers as nat),
            workers@.len() == i,
            forall|k: int| 0 <= k < i ==> workers@[k] == writer(k),
        decreases databases - i,
    {
        workers.push(
            Worker {
                role: Role::Writer,
                database: i,
                next_block: i as u64 * BLOCKS_PER_DATABASE,
            },
        );
        i = i + 1;
    }
    let mut i: usize = 0;
    while i < databases
        invariant
            i <= databases,
            workers@.len() == databases + i * readers,
            forall|k: int| 0 <= k < databases ==> workers@[k] == writer(k),
            forall|k: int|
                databases <= k < workers@.len() ==> workers@[k] == reader(
                    (k - databases) / readers as int,
                ),
        decreases databases - i,
    {
        let mut j: usize = 0;
        proof {
            assert((i + 1) * readers == i * readers + readers) by (nonlinear_arith);
        }
        while j < readers
            invariant
                i < databases,
                j <= readers,
                workers@.len() == databases + i * readers + j,
                forall|k: int| 0 <= k < databases ==> workers@[k] == writer(k),
                forall|k: int|
                    databases <= k < workers@.len() ==> workers@[k] == reader(
                        (k - databases) / readers as int,
                    ),
            decreases readers - j,
        {
            proof {
                vstd::arithmetic::div_mod::lemma_fundamental_div_mod_converse(
                    i * readers + j,
                    readers as int,
                    i as int,
                    j as int,
                );
            }
            workers.push(Worker { role: Role::Reader, database: i, next_block: 0 });
            j = j + 1;
        }
        i = i + 1;
    }
    assert(workers@ =~= team(databases as nat, readers as nat));
    workers
}

// ---------------------------------------------------------------------------
// What a task does next
// ---------------------------------------------------------------------------

/// What a task does next.
#[derive(Clone, Copy, Debug, PartialEq, Eq, Structural)]
pub enum Step {
    /// It ends.
    Finish,
    /// It adds the block with this number.
    Write {
        /// The number of the block.
        block_num: u64,
    },
    /// It reads.
    Read,
}

/// What a task does once an operation has come to an end.
#[derive(Clone, Copy, Debug, PartialEq, Eq, Structural)]
pub enum Pause {
    /// It goes on at once.
    Proceed,
    /// It lets other tasks run first.
    Yield,
    /// It sleeps for this many milliseconds.
    Sleep {
        /// How long.
        ms: u64,
    },
}

impl Worker {
    /// What the task does next.
    pub open spec fn step(self, stopped: bool) -> Step {
        if stopped {
            Step::Finish
        } else {
            match self.role {
                Role::Writer => Step::Write { block_num: self.next_block },
                Role::Reader => Step::Read,
            }
        }
    }

    /// The task once an operation has come to an end.
    pub open spec fn advanced(self) -> Worker {
        match self.role {
            Role::Writer => Worker { next_block: (self.next_block + 1) as u64, ..self },
            Role::Reader => self,
        }
    }

    /// The task once `n` operations have come to an end.
    pub open spec fn after(self, n: nat) -> Worker
        decreases n,
    {
        if n == 0 {
            self
        } else {
            self.after((n - 1) as nat).advanced()
        }
    }

    /// What the task does once an operation has come to an end.
    pub open spec fn pause(self, approach: Approach) -> Pause {
        match self.role {
            Role::Writer => if approach == Approach::DirectBlocking {
                Pause::Yield
            } else {
                Pause::Proceed
            },
            Role::Reader => Pause::Sleep { ms: READ_PAUSE_MS },
        }
    }

    /// What the task does next: it ends if the measurement has been stopped.
    pub fn next_step(&self, stopped: bool) -> (step: Step)
        ensures
            step == self.step(stopped),
    {
        if stopped {
            return Step::Finish;
        }
        match self.role {
            Role::Writer => Step::Write { block_num: self.next_block },
            Role::Reader => Step::Read,
        }
    }

    /// Takes note of an operation that has come to an end, well or badly, after `elapsed_us`
    /// microseconds, and says what the task does then.
    pub fn complete(
        &mut self,
        approach: Approach,
        elapsed_us: u64,
        results: &mut TestResults,
    ) -> (pause: Pause)
        requires
            old(results).wf(),
            old(self).role is Writer ==> old(self).next_block < u64::MAX,
        ensures
            *final(self) == old(self).advanced(),
            pause == old(self).pause(approach),
            final(results).wf(),
            old(self).role is Writer ==> {
                &&& final(results).write_latencies_us@ == old(
                    results,
                ).write_latencies_us@.push(elapsed_us)
                &&& final(results).read_latencies_us@ == old(results).read_latencies_us@
                &&& final(results).write_ops_completed == old(results).write_ops_completed + 1
                &&& final(results).read_requests_completed == old(
                    results,
                ).read_requests_completed
            },
            old(self).role is Reader ==> {
                &&& final(results).read_latencies_us@ == old(results).read_latencies_us@.push(
                    elapsed_us,
                )
                &&& final(results).write_latencies_us@ == old(results).write_latencies_us@
                &&& final(results).read_requests_completed == old(
                    results,
                ).read_requests_completed + 1
                &&& final(results).write_ops_completed == old(results).write_ops_completed
            },
    {
        match self.role {
            Role::Writer => {
                results.record_write(elapsed_us);
                self.next_block = self.next_block + 1;
                match approach {
                    Approach::DirectBlocking => Pause::Yield,
                    Approach::SpawnBlocking => Pause::Proceed,
                    Approach::TokioRusqlite => Pause::Proceed,
                }
            },
            Role::Reader => {
                results.record_read(elapsed_us);
                Pause::Sleep { ms: READ_PAUSE_MS }
            },
        }
    }
}

/// How long the end of each task is waited for once the measurement has been stopped, in
/// milliseconds; without limit where there is none.
pub fn grace_period(approach: Approach, write_delay_ms: u64) -> (limit: Option<u64>)
    requires
        approach == Approach::DirectBlocking ==> write_delay_ms + GRACE_MS <= u64::MAX,
    ensures
        limit == grace(approach, write_delay_ms),
        approach == Approach::DirectBlocking ==> (limit matches Some(ms) && ms == write_delay_ms
            + 1000),
        approach != Approach::DirectBlocking ==> limit is None,
{
    match approach {
        Approach::DirectBlocking => Some(write_delay_ms + GRACE_MS),
        Approach::SpawnBlocking => None,
        Approach::TokioRusqlite => None,
    }
}

// ---------------------------------------------------------------------------
// The course of a measurement
// ---------------------------------------------------------------------------

/// A step in the course of a measurement.
#[derive(Clone, Copy, Debug, PartialEq, Eq, Structural)]
pub enum Order {
    /// Open this many databases, each filled as new.
    OpenDatabases {
        /// How many.
        count: usize,
    },
    /// Start a task.
    Start {
        /// The task.
        worker: Worker,
    },
    /// Let the tasks work for this long.
    Run {
        /// How long, in seconds.
        secs: u64,
    },
    /// Tell all tasks to end.
    Stop,
    /// Wait for the end of the next task in the order in which they were started.
    Join {
        /// How long at most, in milliseconds.
        limit_ms: Option<u64>,
    },
}

/// How long the end of each task is waited for.
pub open spec fn grace(approach: Approach, write_delay_ms: u64) -> Option<u64> {
    if approach == Approach::DirectBlocking {
        Some((write_delay_ms + GRACE_MS) as u64)
    } else {
        None
    }
}

/// The course of a measurement: the databases are opened, all tasks are started, left to work for
/// the set time, told to end, and waited for one after the other.
pub open spec fn course(
    approach: Approach,
    databases: usize,
    readers: usize,
    secs: u64,
    write_delay_ms: u64,
) -> Seq<Order> {
    let workers = team(databases as nat, readers as nat);
    seq![Order::OpenDatabases { count: databases }] + Seq::new(
        workers.len(),
        |k: int| Order::Start { worker: workers[k] },
    ) + seq![Order::Run { secs }, Order::Stop] + Seq::new(
        workers.len(),
        |k: int| Order::Join { limit_ms: grace(approach, write_delay_ms) },
    )
}

/// The course of a measurement.
pub fn plan_course(
    approach: Approach,
    databases: usize,
    readers: usize,
    secs: u64,
    write_delay_ms: u64,
) -> (orders: Vec<Order>)
    requires
        team_fits(databases as nat, readers as nat),
        approach == Approach::DirectBlocking ==> write_delay_ms + GRACE_MS <= u64::MAX,
    ensures
        orders@ == course(approach, databases, readers, secs, write_delay_ms),
        orders@.len() == 2 * (databases + databases * readers) + 3,
        orders@[0] == (Order::OpenDatabases { count: databases }),
        forall|k: int|
            0 <= k < orders@.len() ==> ((#[trigger] orders@[k]) matches Order::Start { worker }
                ==> worker.database < databases),
{
    let workers = assemble(databases, readers);
    let limit_ms = grace_period(approach, write_delay_ms);
    let mut orders: Vec<Order> = Vec::new();
    orders.push(Order::OpenDatabases { count: databases });
    let ghost opened = orders@;
    let mut i: usize = 0;
    while i < workers.len()
        invariant
            i <= workers@.len(),
            orders@ =~= opened + Seq::new(i as nat, |k: int| Order::Start { worker: workers@[k] }),
        decreases workers.len() - i,
    {
        orders.push(Order::Start { worker: workers[i] });
        i = i + 1;
    }
    orders.push(Order::Run { secs });
    orders.push(Order::Stop);
    let ghost stopped = orders@;
    let mut i: usize = 0;
    while i < workers.len()
        invariant
            i <= workers@.len(),
            orders@ =~= stopped + Seq::new(i as nat, |k: int| Order::Join { limit_ms }),
        decreases workers.len() - i,
    {
        orders.push(Order::Join { limit_ms });
        i = i + 1;
    }
    assert(orders@ =~= course(approach, databases, readers, secs, write_delay_ms));
    proof {
        assert forall|k: int| 0 <= k < orders@.len() implies ((
        #[trigger] orders@[k]) matches Order::Start { worker } ==> worker.database
            < databases) by {
            course_is_orderly(approach, databases, readers, secs, write_delay_ms, k);
            course_serves_the_request(
                approach,
                databases,
                readers,
                secs,
                write_delay_ms,
                0,
                0,
                k,
            );
        }
        course_serves_the_request(approach, databases, readers, secs, write_delay_ms, 0, 0, 0);
    }
    orders
}

// ---------------------------------------------------------------------------
// Laws
// ---------------------------------------------------------------------------

/// Every database has one writer, which starts at the block number kept for that database, and as
/// many readers as asked for.
pub proof fn team_serves_every_database(databases: nat, readers: nat, d: int, r: int)
    requires
        team_fits(databases, readers),
        0 <= d < databases,
        0 <= r < readers,
    ensures
        team(databases, readers).len() == databases + databases * readers,
        team(databases, readers)[d] == writer(d),
        team(databases, readers)[d].database == d,
        team(databases, readers)[d].next_block == d * BLOCKS_PER_DATABASE,
        ({
            let k = databases + d * readers + r;
            &&& databases <= k < team(databases, readers).len()
            &&& team(databases, readers)[k] == reader(d)
            &&& team(databases, readers)[k].database == d
        }),
{
    assert(0 <= d * readers && d * readers + r < databases * readers) by (nonlinear_arith)
        requires
            0 <= d < databases,
            0 <= r < readers,
    ;
    vstd::arithmetic::div_mod::lemma_fundamental_div_mod_converse(
        d * readers + r,
        readers as int,
        d,
        r,
    );
}

/// A measurement waits for exactly as many tasks as it starts, and only after it has told them to
/// end; it tells them to end only after all have been started and left to work for the set time.
pub proof fn course_is_orderly(
    approach: Approach,
    databases: usize,
    readers: usize,
    secs: u64,
    write_delay_ms: u64,
    k: int,
)
    requires
        0 <= k < course(approach, databases, readers, secs, write_delay_ms).len(),
    ensures
        ({
            let orders = course(approach, databases, readers, secs, write_delay_ms);
            let n = team(databases as nat, readers as nat).len();
            &&& orders.len() == 2 * n + 3
            &&& orders[k] is OpenDatabases <==> k == 0
            &&& orders[k] is Start <==> 1 <= k <= n
            &&& orders[k] is Run <==> k == n + 1
            &&& orders[k] is Stop <==> k == n + 2
            &&& orders[k] is Join <==> k >= n + 3
        }),
{
}

/// A task never changes what it is there for nor its database, and a writer adds blocks with
/// consecutive numbers.
pub proof fn writers_count_up(worker: Worker, n: nat)
    requires
        worker.next_block + n <= u64::MAX,
    ensures
        worker.after(n).role == worker.role,
        worker.after(n).database == worker.database,
        worker.role is Writer ==> worker.after(n).next_block == worker.next_block + n,
        worker.role is Reader ==> worker.after(n) == worker,
    decreases n,
{
    if n > 0 {
        writers_count_up(worker, (n - 1) as nat);
    }
}

/// As long as each writer has added fewer blocks than are kept for a database, no two writers have
/// come to the same block number.
pub proof fn writers_do_not_meet(a: int, b: int, m: nat, n: nat)
    requires
        0 <= a < b,
        b * BLOCKS_PER_DATABASE + n <= u64::MAX,
        m < BLOCKS_PER_DATABASE,
    ensures
        writer(a).after(m).next_block < writer(b).after(n).next_block,
{
    writers_count_up(writer(a), m);
    writers_count_up(writer(b), n);
}

/// Every started task works on one of the databases that were asked for.
proof fn team_stays_on_its_databases(databases: nat, readers: nat, k: int)
    requires
        team_fits(databases, readers),
        0 <= k < databases + databases * readers,
    ensures
        team(databases, readers).len() == databases + databases * readers,
        team(databases, readers)[k].database < databases,
{
    assert(0 <= databases * readers) by (nonlinear_arith);
    if k >= databases {
        let place = k - databases;
        let (d, r) = (databases as int, readers as int);
        assert(r > 0) by (nonlinear_arith)
            requires
                0 <= place < d * r,
                0 <= d,
                0 <= r,
        ;
        assert(0 <= place / r < d) by (nonlinear_arith)
            requires
                0 <= place < d * r,
                r > 0,
        ;
    }
}

/// A measurement opens as many databases as asked for; starts for each of them one writer, at the
/// block number kept for it, and the asked-for number of readers, and no task on any other; lets
/// them work for the set time; tells them to end; and waits for as many tasks as it started, with
/// a limit only where writes block the runtime.
pub proof fn course_serves_the_request(
    approach: Approach,
    databases: usize,
    readers: usize,
    secs: u64,
    write_delay_ms: u64,
    d: int,
    r: int,
    k: int,
)
    requires
        databases + databases * readers <= usize::MAX,
        databases > 0 ==> (databases - 1) * 10000 <= u64::MAX,
        approach is DirectBlocking ==> write_delay_ms + 1000 <= u64::MAX,
    ensures
        ({
            let orders = course(approach, databases, readers, secs, write_delay_ms);
            let n = databases + databases * readers;
            &&& orders.len() == 2 * n + 3
            &&& orders[0] == Order::OpenDatabases { count: databases }
            &&& 1 <= k <= n ==> (orders[k] matches Order::Start { worker } && worker.database
                < databases)
            &&& 0 <= d < databases ==> (orders[1 + d] matches Order::Start { worker }
                && worker.role is Writer && worker.database == d && worker.next_block == d * 10000)
            &&& 0 <= d < databases && 0 <= r < readers ==> (orders[1 + databases + d * readers
                + r] matches Order::Start { worker } && worker.role is Reader && worker.database
                == d)
            &&& orders[n + 1] == Order::Run { secs }
            &&& orders[n + 2] == Order::Stop
            &&& n + 3 <= k < 2 * n + 3 && approach is DirectBlocking ==> (
            orders[k] matches Order::Join { limit_ms: Some(ms) } && ms == write_delay_ms + 1000)
            &&& n + 3 <= k < 2 * n + 3 && !(approach is DirectBlocking) ==> orders[k]
                == Order::Join { limit_ms: None }
        }),
{
    let (all, each) = (databases as nat, readers as nat);
    let n = all + all * each;
    assert(0 <= all * each) by (nonlinear_arith);
    let orders = course(approach, databases, readers, secs, write_delay_ms);
    let workers = team(all, each);
    assert(workers.len() == n);
    if 1 <= k <= n {
        team_stays_on_its_databases(all, each, k - 1);
        assert(orders[k] == Order::Start { worker: workers[k - 1] });
    }
    if 0 <= d < databases {
        assert(orders[1 + d] == Order::Start { worker: workers[d] });
        assert(workers[d] == writer(d));
        if 0 <= r < readers {
            team_serves_every_database(all, each, d, r);
            assert(orders[1 + databases + d * readers + r] == Order::Start {
                worker: workers[databases + d * readers + r],
            });
        }
    }
}

/// The number of tasks and the first block numbers fit exactly where they are machine numbers.
pub proof fn team_fits_where_its_numbers_do(databases: nat, readers: nat)
    ensures
        team_fits(databases, readers) <==> databases * (readers + 1) <= usize::MAX && (databases
            == 0 || (databases - 1) * 10000 <= u64::MAX),
{
    assert(databases * (readers + 1) == databases + databases * readers) by (nonlinear_arith);
}

/// A task works until it is told to end: a writer adds the block that is next, a reader reads.
pub proof fn tasks_work_until_stopped(worker: Worker)
    ensures
        worker.step(true) is Finish,
        worker.role is Writer ==> worker.step(false) == (Step::Write {
            block_num: worker.next_block,
        }),
        worker.role is Reader ==> worker.step(false) is Read,
{
}

/// After each read a task sleeps for a millisecond; after each write it goes on at once, but for
/// the approach that blocks the runtime, where it lets other tasks run first.
pub proof fn tasks_pause_by_role(worker: Worker, approach: Approach)
    ensures
        worker.role is Reader ==> worker.pause(approach) == (Pause::Sleep { ms: 1 }),
        worker.role is Writer && approach is DirectBlocking ==> worker.pause(approach) is Yield,
        worker.role is Writer && !(approach is DirectBlocking) ==> worker.pause(
            approach,
        ) is Proceed,
{
}

/// Only where writes block the runtime is the end of a task waited for with a limit: a second more
/// than a write takes.
pub proof fn grace_exceeds_a_write(approach: Approach, write_delay_ms: u64)
    requires
        write_delay_ms + 1000 <= u64::MAX,
    ensures
        approach is DirectBlocking ==> (grace(approach, write_delay_ms) matches Some(ms) && ms
            - write_delay_ms == 1000),
        !(approach is DirectBlocking) ==> grace(approach, write_delay_ms) is None,
{
}

} // verus!
