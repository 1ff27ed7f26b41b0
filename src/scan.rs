//! A whole scan run over files whose `stat` and read results are already
//! known, against an in-memory inventory, and the laws such runs obey.
use crate::fingerprint::{fingerprint, fingerprint_of};
use crate::pipeline::{Action, IoKind, ScanSession, StoreFailure};
use crate::record::{record_spec, FileMeta, RecordView};
use crate::store::{contains_path, paths_unique, MemoryInventory};
use vstd::prelude::*;

verus! {

/// One discovered file and what the filesystem answered for it.
#[derive(Debug)]
pub struct ObservedFile {
    pub path: String,
    /// The result of stat'ing the path.
    pub meta: Result<FileMeta, IoKind>,
    /// The result of reading the whole content.
    pub content: Result<Vec<u8>, IoKind>,
}

/// Whether a file yields a record when it is not yet in the inventory.
pub open spec fn readable(f: ObservedFile) -> bool {
    f.meta is Ok && f.content is Ok
}

/// The record a readable file yields.
pub open spec fn observed_record(f: ObservedFile) -> RecordView
    recommends
        readable(f),
{
    record_spec(f.path@, f.meta->Ok_0, fingerprint_of(f.content->Ok_0@))
}

/// One file's effect: the inventory afterwards and whether a record was added.
pub open spec fn step_spec(s: Seq<RecordView>, f: ObservedFile) -> (Seq<RecordView>, bool) {
    if contains_path(s, f.path@) || !readable(f) {
        (s, false)
    } else {
        (s.push(observed_record(f)), true)
    }
}

/// A run over `files` in order: the inventory afterwards and the number of
/// files scanned; every other file was skipped.
pub open spec fn scan_spec(s: Seq<RecordView>, files: Seq<ObservedFile>) -> (Seq<RecordView>, nat)
    decreases files.len(),
{
    if files.len() == 0 {
        (s, 0)
    } else {
        let (t, n) = scan_spec(s, files.drop_last());
        let (u, added) = step_spec(t, files.last());
        (u, if added { n + 1 } else { n })
    }
}

/// Runs the ingestion pipeline over `files` against `inv`, returning the
/// scanned and skipped counts.
pub fn scan_files(inv: &mut MemoryInventory, files: &Vec<ObservedFile>) -> (r: (u64, u64))
    requires
        old(inv).wf(),
        files@.len() < u64::MAX,
    ensures
        final(inv).wf(),
        final(inv)@ == scan_spec(old(inv)@, files@).0,
        r.0 == scan_spec(old(inv)@, files@).1,
        r.0 + r.1 == files@.len(),
{
    let ghost s0 = inv@;
    let mut session = ScanSession::new();
    let n = files.len();
    let mut i: usize = 0;
    while i < n
        invariant
            n == files@.len(),
            n < u64::MAX,
            i <= n,
            inv.wf(),
            session.phase_spec() == crate::pipeline::Phase::Idle,
            inv@ == scan_spec(s0, files@.subrange(0, i as int)).0,
            session.scanned_count() == scan_spec(s0, files@.subrange(0, i as int)).1,
            session.total() == i,
        decreases n - i,
    {
        let f = &files[i];
        let ghost before = inv@;
        assert(files@.subrange(0, i + 1).drop_last() =~= files@.subrange(0, i as int));
        let _ = session.begin_file(f.path.clone());
        let count = inv.count_matching(&f.path);
        let a = session.on_exists(Ok(count));
        if let Action::Stat(_) = a {
            let a = session.on_stat(f.meta);
            if let Action::Fingerprint(_) = a {
                let hash = match &f.content {
                    Ok(bytes) => Ok(fingerprint(bytes.as_slice())),
                    Err(k) => Err(*k),
                };
                let a = session.on_fingerprint(hash);
                if let Action::Insert(rec) = a {
                    let res = inv.insert_one(rec);
                    let _ = session.on_insert(res);
                }
            }
        }
        i = i + 1;
    }
    assert(files@.subrange(0, n as int) =~= files@);
    (session.scanned(), session.skipped())
}

/// Files with equal content get equal fingerprints in their records, whatever
/// their paths.
pub proof fn lemma_same_content_same_hash(f: ObservedFile, g: ObservedFile)
    requires
        readable(f),
        readable(g),
        f.content->Ok_0@ == g.content->Ok_0@,
    ensures
        observed_record(f).file_hash == observed_record(g).file_hash,
{
}

/// A run only appends to the inventory: records already persisted stay as
/// they were, in their place.
pub proof fn lemma_scan_extends(s: Seq<RecordView>, files: Seq<ObservedFile>)
    ensures
        s.len() <= scan_spec(s, files).0.len(),
        scan_spec(s, files).0.subrange(0, s.len() as int) == s,
    decreases files.len(),
{
    if files.len() > 0 {
        lemma_scan_extends(s, files.drop_last());
        let t = scan_spec(s, files.drop_last()).0;
        assert(t.push(observed_record(files.last())).subrange(0, s.len() as int) =~= t.subrange(
            0,
            s.len() as int,
        ));
    }
}

/// Every readable file of `files` has its path in `s`.
pub open spec fn covers(s: Seq<RecordView>, files: Seq<ObservedFile>) -> bool {
    forall|j: int| 0 <= j < files.len() && readable(#[trigger] files[j]) ==> contains_path(s, files[j].path@)
}

proof fn lemma_scan_covers(s: Seq<RecordView>, files: Seq<ObservedFile>)
    ensures
        covers(scan_spec(s, files).0, files),
    decreases files.len(),
{
    if files.len() > 0 {
        let pre = files.drop_last();
        lemma_scan_covers(s, pre);
        let t = scan_spec(s, pre).0;
        let u = scan_spec(s, files).0;
        let f = files.last();
        assert(u.len() >= t.len() && forall|k: int| 0 <= k < t.len() ==> u[k] == t[k]);
        assert forall|j: int| 0 <= j < files.len() && readable(#[trigger] files[j]) implies contains_path(
            u,
            files[j].path@,
        ) by {
            let p = files[j].path@;
            if contains_path(t, p) {
                let k = choose|k: int| 0 <= k < t.len() && #[trigger] t[k].file_path == p;
                assert(u[k].file_path == p);
            } else {
                if j < files.len() - 1 {
                    assert(pre[j] == files[j]);
                }
                assert(j == files.len() - 1);
                assert(u[t.len() as int].file_path == p);
            }
        }
    }
}

proof fn lemma_scan_covered_unchanged(t: Seq<RecordView>, files: Seq<ObservedFile>)
    requires
        covers(t, files),
    ensures
        scan_spec(t, files) == (t, 0nat),
    decreases files.len(),
{
    if files.len() > 0 {
        let pre = files.drop_last();
        assert forall|j: int| 0 <= j < pre.len() && readable(#[trigger] pre[j]) implies contains_path(
            t,
            pre[j].path@,
        ) by {
            assert(pre[j] == files[j]);
        }
        lemma_scan_covered_unchanged(t, pre);
        assert(files.last() == files[files.len() - 1]);
    }
}

/// Scanning is idempotent: a second run over the same files leaves the
/// inventory as the first run left it and scans nothing, so every file of
/// the second run is skipped.
pub proof fn lemma_scan_idempotent(s: Seq<RecordView>, files: Seq<ObservedFile>)
    ensures
        scan_spec(scan_spec(s, files).0, files) == (scan_spec(s, files).0, 0nat),
{
    lemma_scan_covers(s, files);
    lemma_scan_covered_unchanged(scan_spec(s, files).0, files);
}

/// A run keeps paths unique.
pub proof fn lemma_scan_unique(s: Seq<RecordView>, files: Seq<ObservedFile>)
    requires
        paths_unique(s),
    ensures
        paths_unique(scan_spec(s, files).0),
    decreases files.len(),
{
    if files.len() > 0 {
        let pre = files.drop_last();
        lemma_scan_unique(s, pre);
        let t = scan_spec(s, pre).0;
        let f = files.last();
        if !contains_path(t, f.path@) && readable(f) {
            let u = t.push(observed_record(f));
            assert forall|i: int, j: int|
                0 <= i < u.len() && 0 <= j < u.len() && i != j implies #[trigger] u[i].file_path
                != #[trigger] u[j].file_path by {
                if i == t.len() as int {
                    assert(t[j].file_path != f.path@);
                } else if j == t.len() as int {
                    assert(t[i].file_path != f.path@);
                } else {
                    assert(u[i] == t[i] && u[j] == t[j]);
                }
            }
        }
    }
}

/// Uniqueness across runs: after any two runs, over any files and possibly
/// overlapping roots, no two records share a path.
pub proof fn lemma_two_runs_unique(s: Seq<RecordView>, first: Seq<ObservedFile>, second: Seq<ObservedFile>)
    requires
        paths_unique(s),
    ensures
        paths_unique(scan_spec(scan_spec(s, first).0, second).0),
{
    lemma_scan_unique(s, first);
    lemma_scan_unique(scan_spec(s, first).0, second);
}

} // verus!
