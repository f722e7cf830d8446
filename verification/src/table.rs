use vstd::prelude::*;
use crate::entry::Entry;
use crate::error::ScheduleError;

verus! {

/// Largest table the engine accepts; keeps every scan and every product
/// `length * granularity` comfortably inside machine integers.
pub const MAX_TABLE_LEN: usize = 100_000;

/// An immutable, fixed-length, ordered sequence of entries, addressed by
/// period modulo length.
pub struct CycleTable {
    pub entries: Vec<Entry>,
}

impl CycleTable {
    /// Sizes on which every table operation is defined.
    pub open spec fn wf(self) -> bool {
        1 <= self.entries@.len() <= MAX_TABLE_LEN
    }

    /// A table with no reachable distinct successor: scanning forward from
    /// any period never finds an entry of a different name.
    pub open spec fn degenerate(self) -> bool {
        self.entries@.len() < 2 || forall|i: int|
            0 <= i < self.entries@.len() ==> #[trigger] self.entries@[i].name@
                == self.entries@[0].name@
    }

    /// The entry addressed by period `p`.
    pub open spec fn entry_at(self, p: int) -> Entry
        recommends
            self.entries@.len() >= 1,
    {
        self.entries@[p % (self.entries@.len() as int)]
    }

    /// The name addressed by period `p`.
    pub open spec fn name_at(self, p: int) -> Seq<char>
        recommends
            self.entries@.len() >= 1,
    {
        self.entry_at(p).name@
    }

    /// Builds a table, rejecting one whose advance loop could not terminate
    /// on a distinct successor: empty, single-entry, or all names equal.
    pub fn new(entries: Vec<Entry>) -> (r: Result<CycleTable, ScheduleError>)
        requires
            entries@.len() <= MAX_TABLE_LEN,
        ensures
            match r {
                Ok(t) => t == (CycleTable { entries }) && t.wf() && !t.degenerate(),
                Err(e) => e == ScheduleError::CycleDegenerate && (CycleTable {
                    entries,
                }).degenerate(),
            },
    {
        if entries.len() < 2 {
            return Err(ScheduleError::CycleDegenerate);
        }
        let mut i: usize = 1;
        while i < entries.len()
            invariant
                1 <= i <= entries@.len(),
                2 <= entries@.len() <= MAX_TABLE_LEN,
                forall|j: int| 0 <= j < i ==> #[trigger] entries@[j].name@ == entries@[0].name@,
            decreases entries@.len() - i,
        {
            if !(entries[i] == entries[0]) {
                return Ok(CycleTable { entries });
            }
            i = i + 1;
        }
        Err(ScheduleError::CycleDegenerate)
    }

    /// The number of entries in one cycle.
    pub fn len(&self) -> (r: usize)
        ensures
            r == self.entries@.len(),
    {
        self.entries.len()
    }

    /// Total lookup: wraps via `p mod length`.
    pub fn get(&self, p: u64) -> (r: &Entry)
        requires
            self.wf(),
        ensures
            *r == self.entry_at(p as int),
    {
        let len = self.entries.len();
        proof {
            vstd::arithmetic::div_mod::lemma_mod_bound(p as int, len as int);
        }
        let idx = (p % (len as u64)) as usize;
        &self.entries[idx]
    }
}

} // verus!
