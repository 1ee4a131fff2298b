//! The three ways of running SQLite operations under an asynchronous runtime.

use vstd::prelude::*;

verus! {

/// A way of running SQLite operations under an asynchronous runtime.
#[derive(Clone, Copy, Debug, PartialEq, Eq, Structural)]
pub enum Approach {
    /// SQLite is called directly on a runtime worker thread, which blocks meanwhile.
    DirectBlocking,
    /// SQLite is called on the runtime's pool of blocking threads.
    SpawnBlocking,
    /// SQLite is called on a thread that belongs to the database.
    TokioRusqlite,
}

impl Approach {
    /// The name under which results of this approach are stored.
    pub open spec fn name(self) -> Seq<char> {
        match self {
            Approach::DirectBlocking => "direct_blocking"@,
            Approach::SpawnBlocking => "spawn_blocking"@,
            Approach::TokioRusqlite => "tokio_rusqlite"@,
        }
    }

    /// The name that progress messages show.
    pub open spec fn banner(self) -> Seq<char> {
        match self {
            Approach::DirectBlocking => "DIRECT BLOCKING"@,
            Approach::SpawnBlocking => "SPAWN_BLOCKING"@,
            Approach::TokioRusqlite => "TOKIO-RUSQLITE"@,
        }
    }

    /// The name under which results of this approach are stored.
    pub fn key(self) -> (s: &'static str)
        ensures
            s@ == self.name(),
    {
        match self {
            Approach::DirectBlocking => "direct_blocking",
            Approach::SpawnBlocking => "spawn_blocking",
            Approach::TokioRusqlite => "tokio_rusqlite",
        }
    }

    /// The name that progress messages show.
    pub fn progress_name(self) -> (s: &'static str)
        ensures
            s@ == self.banner(),
    {
        match self {
            Approach::DirectBlocking => "DIRECT BLOCKING",
            Approach::SpawnBlocking => "SPAWN_BLOCKING",
            Approach::TokioRusqlite => "TOKIO-RUSQLITE",
        }
    }
}

/// The approach that is measured at place `index` of each scenario.
pub open spec fn approach_at(index: int) -> Approach {
    if index == 0 {
        Approach::DirectBlocking
    } else if index == 1 {
        Approach::SpawnBlocking
    } else {
        Approach::TokioRusqlite
    }
}

/// No two approaches store their results under the same name.
pub proof fn approach_names_differ(a: Approach, b: Approach)
    ensures
        a.name() == b.name() <==> a == b,
{
    reveal_strlit("direct_blocking");
    reveal_strlit("spawn_blocking");
    reveal_strlit("tokio_rusqlite");
    if a.name() == b.name() {
        assert(a.name()[0] == b.name()[0]);
    }
}

} // verus!
