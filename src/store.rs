//! An inventory kept in memory, with the store's contract: a unique index on
//! the file path, counting by path, insertion, and a forward cursor.
use crate::pipeline::StoreFailure;
use crate::record::{InventoryRecord, RecordView};
use vstd::prelude::*;

verus! {

/// Whether some record of `s` has path `p`.
pub open spec fn contains_path(s: Seq<RecordView>, p: Seq<char>) -> bool {
    exists|i: int| 0 <= i < s.len() && #[trigger] s[i].file_path == p
}

/// No two records of `s` share a path.
pub open spec fn paths_unique(s: Seq<RecordView>) -> bool {
    forall|i: int, j: int|
        0 <= i < s.len() && 0 <= j < s.len() && i != j ==> #[trigger] s[i].file_path
            != #[trigger] s[j].file_path
}

/// The records in insertion order, which is also cursor order.
pub struct MemoryInventory {
    records: Vec<InventoryRecord>,
}

impl View for MemoryInventory {
    type V = Seq<RecordView>;

    closed spec fn view(&self) -> Seq<RecordView> {
        self.records@.map_values(|r: InventoryRecord| r@)
    }
}

impl MemoryInventory {
    /// The unique index holds.
    pub open spec fn wf(&self) -> bool {
        paths_unique(self@)
    }

    pub fn new() -> (r: MemoryInventory)
        ensures
            r@ == Seq::<RecordView>::empty(),
            r.wf(),
    {
        let r = MemoryInventory { records: Vec::new() };
        assert(r@ =~= Seq::<RecordView>::empty());
        r
    }

    pub fn len(&self) -> (r: usize)
        ensures
            r == self@.len(),
    {
        self.records.len()
    }

    /// The record at cursor position `i`.
    pub fn get(&self, i: usize) -> (r: &InventoryRecord)
        requires
            i < self@.len(),
        ensures
            r@ == self@[i as int],
    {
        &self.records[i]
    }

    /// The number of records whose path is `path`.
    pub fn count_matching(&self, path: &String) -> (r: u64)
        requires
            self.wf(),
        ensures
            r == (if contains_path(self@, path@) { 1u64 } else { 0u64 }),
    {
        let n = self.records.len();
        let mut i: usize = 0;
        while i < n
            invariant
                n == self@.len(),
                i <= n,
                forall|j: int| 0 <= j < i ==> #[trigger] self@[j].file_path != path@,
            decreases n - i,
        {
            if self.records[i].file_path == *path {
                assert(self@[i as int].file_path == path@);
                return 1;
            }
            i = i + 1;
        }
        0
    }

    /// Inserts a record; fails, changing nothing, when its path is present.
    pub fn insert_one(&mut self, rec: InventoryRecord) -> (r: Result<(), StoreFailure>)
        requires
            old(self).wf(),
        ensures
            final(self).wf(),
            contains_path(old(self)@, rec@.file_path) ==> r is Err && final(self)@ == old(self)@,
            !contains_path(old(self)@, rec@.file_path) ==> r is Ok && final(self)@ == old(self)@.push(
                rec@,
            ),
    {
        if self.count_matching(&rec.file_path) > 0 {
            Err(StoreFailure)
        } else {
            let ghost before = self@;
            let ghost v = rec@;
            self.records.push(rec);
            assert(self@ =~= before.push(v));
            assert forall|i: int, j: int|
                0 <= i < self@.len() && 0 <= j < self@.len() && i != j implies #[trigger] self@[i].file_path
                != #[trigger] self@[j].file_path by {
                if i == before.len() as int {
                    assert(before[j].file_path != v.file_path);
                } else if j == before.len() as int {
                    assert(before[i].file_path != v.file_path);
                }
            }
            Ok(())
        }
    }
}

} // verus!
