//! A host in memory.
//!
//! A [`Ledger`] keeps the cells of one contract account the way the host
//! does, by key, and serves the requests of a [`Task`]. It is what the
//! contracts are run on where there is no chain: in simulations and tests.
//! Its writes can be told to fail, so that a call can be followed through a
//! host that gives up half way.

use crate::host::{HostState, Reply, Request};
use crate::keys::{Cell32, Cell64};
use crate::note::Note;
use crate::task::{each_step_counts, run, Task};
use vstd::prelude::*;

verus! {

/// What a list of entries holds under each key: of two entries with one key
/// the later counts.
pub open spec fn cells_of<V>(entries: Seq<(String, V)>) -> Map<Seq<char>, V>
    decreases entries.len(),
{
    if entries.len() == 0 {
        Map::empty()
    } else {
        cells_of(entries.drop_last()).insert(entries.last().0@, entries.last().1)
    }
}

/// To replace the last entry of a key is to write the key.
proof fn lemma_replace_entry<V>(entries: Seq<(String, V)>, at: int, key: String, value: V)
    requires
        0 <= at < entries.len(),
        entries[at].0@ == key@,
        forall|j: int| at < j < entries.len() ==> entries[j].0@ != key@,
    ensures
        cells_of(entries.update(at, (key, value))) == cells_of(entries).insert(key@, value),
    decreases entries.len(),
{
    let replaced = entries.update(at, (key, value));
    if at == entries.len() - 1 {
        assert(replaced.drop_last() == entries.drop_last());
        assert(cells_of(replaced) =~= cells_of(entries).insert(key@, value));
    } else {
        assert(replaced.drop_last() == entries.drop_last().update(at, (key, value)));
        lemma_replace_entry(entries.drop_last(), at, key, value);
        assert(entries.last().0@ != key@);
        assert(cells_of(replaced) =~= cells_of(entries).insert(key@, value));
    }
}

/// Cells of one width, found by key.
pub struct Table<V> {
    entries: Vec<(String, V)>,
}

impl<V: Copy> Table<V> {
    /// What the table holds under each key.
    pub closed spec fn cells(&self) -> Map<Seq<char>, V> {
        cells_of(self.entries@)
    }

    /// A table that holds nothing.
    pub fn new() -> (table: Table<V>)
        ensures
            table.cells() == Map::<Seq<char>, V>::empty(),
    {
        Table { entries: Vec::new() }
    }

    /// Where the entry of `key` stands, if there is one.
    fn find(&self, key: &String) -> (at: Option<usize>)
        ensures
            match at {
                Some(i) => {
                    &&& i < self.entries@.len()
                    &&& self.entries@[i as int].0@ == key@
                    &&& forall|j: int| i < j < self.entries@.len() ==> self.entries@[j].0@ != key@
                    &&& self.cells().get(key@) == Some(self.entries@[i as int].1)
                },
                None => self.cells().get(key@) == None::<V>,
            },
    {
        let mut i = self.entries.len();
        proof {
            assert(self.entries@.take(i as int) == self.entries@);
        }
        while i > 0
            invariant
                i <= self.entries@.len(),
                forall|j: int| i <= j < self.entries@.len() ==> self.entries@[j].0@ != key@,
                cells_of(self.entries@).get(key@) == cells_of(self.entries@.take(i as int)).get(
                    key@,
                ),
            decreases i,
        {
            proof {
                assert(self.entries@.take(i as int).drop_last() == self.entries@.take(i - 1));
            }
            i -= 1;
            if self.entries[i].0 == *key {
                return Some(i);
            }
        }
        proof {
            assert(self.entries@.take(0).len() == 0);
        }
        None
    }

    /// What the table holds under `key`, if anything.
    pub fn get(&self, key: &String) -> (found: Option<V>)
        ensures
            found == self.cells().get(key@),
    {
        match self.find(key) {
            Some(i) => Some(self.entries[i].1),
            None => None,
        }
    }

    /// Writes `value` under `key`.
    pub fn put(&mut self, key: String, value: V)
        ensures
            final(self).cells() == old(self).cells().insert(key@, value),
    {
        match self.find(&key) {
            Some(i) => {
                proof {
                    lemma_replace_entry(self.entries@, i as int, key, value);
                }
                self.entries.set(i, (key, value));
            },
            None => {
                proof {
                    assert(self.entries@.push((key, value)).drop_last() == self.entries@);
                }
                self.entries.push((key, value));
            },
        }
    }
}

/// One contract account on a host in memory.
pub struct Ledger {
    cells32: Table<u32>,
    cells64: Table<u64>,
    outcomes: Vec<Result<(), i32>>,
    trace: Vec<Note>,
}

impl View for Ledger {
    type V = HostState;

    closed spec fn view(&self) -> HostState {
        HostState {
            cells32: self.cells32.cells(),
            cells64: self.cells64.cells(),
            outcomes: self.outcomes@,
            trace: self.trace@,
        }
    }
}

impl Ledger {
    /// An account to which nothing was ever written, on a host that takes
    /// every write.
    pub fn new() -> (ledger: Ledger)
        ensures
            ledger@ == HostState::fresh(),
    {
        Ledger {
            cells32: Table::new(),
            cells64: Table::new(),
            outcomes: Vec::new(),
            trace: Vec::new(),
        }
    }

    /// Says how one more of the coming writes is to end: after those already
    /// planned, the next write ends with `outcome`.
    pub fn plan(&mut self, outcome: Result<(), i32>)
        ensures
            final(self)@ == (HostState {
                outcomes: old(self)@.outcomes.push(outcome),
                ..old(self)@
            }),
    {
        self.outcomes.push(outcome);
    }

    /// What `cell` counts as: zero if it was never written.
    pub fn count(&self, cell: Cell32) -> (value: u32)
        ensures
            value == self@.count(cell),
    {
        crate::host::value32(self.cells32.get(&cell.key()))
    }

    /// What `cell` counts as: zero if it was never written.
    pub fn amount(&self, cell: Cell64) -> (value: u64)
        ensures
            value == self@.amount(cell),
    {
        crate::host::value64(self.cells64.get(&cell.key()))
    }

    /// The lines traced so far, the oldest first.
    pub fn trace(&self) -> (notes: &Vec<Note>)
        ensures
            notes@ == self@.trace,
    {
        &self.trace
    }

    /// How the next write ends.
    fn next_outcome(&mut self) -> (outcome: Result<(), i32>)
        ensures
            outcome == old(self)@.outcome(),
            final(self)@ == (HostState { outcomes: old(self)@.later_outcomes(), ..old(self)@ }),
    {
        if self.outcomes.len() > 0 {
            self.outcomes.remove(0)
        } else {
            Ok(())
        }
    }

    /// Does what `request` asks and answers it, as the host would.
    pub fn serve(&mut self, request: Request) -> (reply: Reply)
        ensures
            (final(self)@, reply) == old(self)@.serve(request),
    {
        match request {
            Request::Load32(cell) => Reply::Value32(self.cells32.get(&cell.key())),
            Request::Load64(cell) => Reply::Value64(self.cells64.get(&cell.key())),
            Request::Store32(cell, value) => {
                let outcome = self.next_outcome();
                if outcome.is_ok() {
                    self.cells32.put(cell.key(), value);
                }
                Reply::Stored(outcome)
            },
            Request::Store64(cell, value) => {
                let outcome = self.next_outcome();
                if outcome.is_ok() {
                    self.cells64.put(cell.key(), value);
                }
                Reply::Stored(outcome)
            },
            Request::Trace(note) => {
                self.trace.push(note);
                Reply::Traced
            },
            Request::Return(_) => Reply::Traced,
        }
    }

    /// Makes the call that `task` begins, to its end, and returns its
    /// result.
    pub fn run(&mut self, task: Task) -> (code: i32)
        ensures
            (final(self)@, code) == run(task, old(self)@),
    {
        let ghost begun = self@;
        let mut now = task;
        loop
            invariant
                begun == old(self)@,
                run(now, self@) == run(task, begun),
            decreases now.steps_left(),
        {
            match now.result() {
                Some(code) => {
                    return code;
                },
                None => {},
            }
            proof {
                each_step_counts(now, self@);
            }
            let reply = self.serve(now.request());
            now = now.resume(reply);
        }
    }
}

} // verus!
