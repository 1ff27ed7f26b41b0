//! The ingestion decisions for one scan run, as a state machine. The driver
//! performs each returned `Action` (a store query, a `stat`, a fingerprint, an
//! insert) and hands the result back as the next event.
use crate::record::{build_record, record_spec, FileMeta, InventoryRecord, RecordView};
use vstd::prelude::*;

verus! {

/// How a file operation failed.
#[derive(Clone, Copy, Debug, PartialEq, Eq, Structural)]
pub enum IoKind {
    NotFound,
    PermissionDenied,
    Other,
}

/// A failed store operation (connection failure, duplicate key, ...).
#[derive(Clone, Copy, Debug, PartialEq, Eq, Structural)]
pub struct StoreFailure;

/// What became of one discovered file.
#[derive(Clone, Copy, Debug, PartialEq, Eq, Structural)]
pub enum FileOutcome {
    AlreadyScanned,
    Inserted,
    NotFound,
    PermissionDenied,
    /// An unclassified I/O error; drivers surface it to the operator.
    Failed,
    InsertFailed,
}

/// Where the current file stands.
#[derive(Clone, Copy, Debug, PartialEq, Eq, Structural)]
pub enum Phase {
    Idle,
    AwaitExists,
    AwaitStat,
    AwaitFingerprint,
    AwaitInsert,
}

/// What the driver must do next.
#[derive(Clone, Debug)]
pub enum Action {
    /// Count the records whose path equals this one.
    CountMatching(String),
    /// Stat this path.
    Stat(String),
    /// Fingerprint the content of this path.
    Fingerprint(String),
    /// Insert this record.
    Insert(InventoryRecord),
    /// The file is done; report its outcome with the progress.
    Report(FileOutcome),
}

/// The dedup gate's answer for an existence check. A failed check fails open:
/// the file counts as not scanned.
pub open spec fn scanned_spec(count: Result<u64, StoreFailure>) -> bool {
    match count {
        Ok(n) => n > 0,
        Err(_) => false,
    }
}

/// Decides whether a path is already in the inventory from the store's count
/// of matching records.
pub fn already_scanned(count: Result<u64, StoreFailure>) -> (r: bool)
    ensures
        r == scanned_spec(count),
{
    match count {
        Ok(n) => n > 0,
        Err(_) => false,
    }
}

pub open spec fn outcome_spec(kind: IoKind) -> FileOutcome {
    match kind {
        IoKind::NotFound => FileOutcome::NotFound,
        IoKind::PermissionDenied => FileOutcome::PermissionDenied,
        IoKind::Other => FileOutcome::Failed,
    }
}

/// Classifies a failed `stat` or read of a file.
pub fn classify(kind: IoKind) -> (r: FileOutcome)
    ensures
        r == outcome_spec(kind),
{
    match kind {
        IoKind::NotFound => FileOutcome::NotFound,
        IoKind::PermissionDenied => FileOutcome::PermissionDenied,
        IoKind::Other => FileOutcome::Failed,
    }
}

/// A progress observation, emitted after each file.
#[derive(Clone, Copy, Debug, PartialEq, Eq, Structural)]
pub struct Progress {
    pub elapsed_ms: u64,
    pub scanned: u64,
    pub skipped: u64,
    /// Files handled per second, rounded down; zero before any time has passed.
    pub files_per_sec: u128,
}

/// The state of one scan run.
pub struct ScanSession {
    scanned: u64,
    skipped: u64,
    phase: Phase,
    path: String,
    meta: FileMeta,
}

impl ScanSession {
    pub closed spec fn scanned_count(&self) -> u64 {
        self.scanned
    }

    pub closed spec fn skipped_count(&self) -> u64 {
        self.skipped
    }

    pub closed spec fn phase_spec(&self) -> Phase {
        self.phase
    }

    /// The path of the file in progress.
    pub closed spec fn current_path(&self) -> Seq<char> {
        self.path@
    }

    /// What `stat` reported for the file in progress.
    pub closed spec fn current_meta(&self) -> FileMeta {
        self.meta
    }

    /// Files handled so far, whatever their outcome.
    pub open spec fn total(&self) -> int {
        self.scanned_count() + self.skipped_count()
    }

    pub fn new() -> (r: ScanSession)
        ensures
            r.scanned_count() == 0,
            r.skipped_count() == 0,
            r.phase_spec() == Phase::Idle,
    {
        ScanSession {
            scanned: 0,
            skipped: 0,
            phase: Phase::Idle,
            path: String::new(),
            meta: FileMeta { size: 0, modified_secs: None },
        }
    }

    pub fn scanned(&self) -> (r: u64)
        ensures
            r == self.scanned_count(),
    {
        self.scanned
    }

    pub fn skipped(&self) -> (r: u64)
        ensures
            r == self.skipped_count(),
    {
        self.skipped
    }

    pub fn phase(&self) -> (r: Phase)
        ensures
            r == self.phase_spec(),
    {
        self.phase
    }

    /// Whether another file can be taken on: the session is idle and its
    /// counters cannot overflow.
    pub fn ready(&self) -> (r: bool)
        ensures
            r == (self.phase_spec() == Phase::Idle && self.total() < u64::MAX),
    {
        self.phase == Phase::Idle && self.skipped < u64::MAX - self.scanned
    }

    /// Counts the current file as skipped and returns to idle.
    fn skip(&mut self, outcome: FileOutcome) -> (r: Action)
        requires
            old(self).total() < u64::MAX,
        ensures
            final(self).skipped_count() == old(self).skipped_count() + 1,
            final(self).scanned_count() == old(self).scanned_count(),
            final(self).phase_spec() == Phase::Idle,
            final(self).current_path() == old(self).current_path(),
            final(self).current_meta() == old(self).current_meta(),
            r == Action::Report(outcome),
    {
        self.skipped = self.skipped + 1;
        self.phase = Phase::Idle;
        Action::Report(outcome)
    }

    /// Takes on a discovered file: first ask whether it is already known.
    pub fn begin_file(&mut self, path: String) -> (r: Action)
        requires
            old(self).phase_spec() == Phase::Idle,
            old(self).total() < u64::MAX,
        ensures
            final(self).phase_spec() == Phase::AwaitExists,
            final(self).current_path() == path@,
            final(self).scanned_count() == old(self).scanned_count(),
            final(self).skipped_count() == old(self).skipped_count(),
            r == Action::CountMatching(path),
    {
        self.path = path.clone();
        self.phase = Phase::AwaitExists;
        Action::CountMatching(path)
    }

    /// The store's count of records with the current path: skip a known file,
    /// otherwise stat it. A failed count proceeds as if the path were unknown.
    pub fn on_exists(&mut self, count: Result<u64, StoreFailure>) -> (r: Action)
        requires
            old(self).phase_spec() == Phase::AwaitExists,
            old(self).total() < u64::MAX,
        ensures
            final(self).current_path() == old(self).current_path(),
            final(self).scanned_count() == old(self).scanned_count(),
            scanned_spec(count) ==> {
                &&& final(self).skipped_count() == old(self).skipped_count() + 1
                &&& final(self).phase_spec() == Phase::Idle
                &&& r == Action::Report(FileOutcome::AlreadyScanned)
            },
            !scanned_spec(count) ==> {
                &&& final(self).skipped_count() == old(self).skipped_count()
                &&& final(self).phase_spec() == Phase::AwaitStat
                &&& r matches Action::Stat(p) && p@ == old(self).current_path()
            },
    {
        if already_scanned(count) {
            self.skip(FileOutcome::AlreadyScanned)
        } else {
            self.phase = Phase::AwaitStat;
            Action::Stat(self.path.clone())
        }
    }

    /// The result of the `stat`: a failure skips the file, otherwise its
    /// content is fingerprinted.
    pub fn on_stat(&mut self, meta: Result<FileMeta, IoKind>) -> (r: Action)
        requires
            old(self).phase_spec() == Phase::AwaitStat,
            old(self).total() < u64::MAX,
        ensures
            final(self).current_path() == old(self).current_path(),
            final(self).scanned_count() == old(self).scanned_count(),
            match meta {
                Err(k) => {
                    &&& final(self).skipped_count() == old(self).skipped_count() + 1
                    &&& final(self).phase_spec() == Phase::Idle
                    &&& r == Action::Report(outcome_spec(k))
                },
                Ok(m) => {
                    &&& final(self).skipped_count() == old(self).skipped_count()
                    &&& final(self).phase_spec() == Phase::AwaitFingerprint
                    &&& final(self).current_meta() == m
                    &&& r matches Action::Fingerprint(p) && p@ == old(self).current_path()
                },
            },
    {
        match meta {
            Err(k) => self.skip(classify(k)),
            Ok(m) => {
                self.meta = m;
                self.phase = Phase::AwaitFingerprint;
                Action::Fingerprint(self.path.clone())
            },
        }
    }

    /// The file's fingerprint: a read failure skips the file (nothing is
    /// written), otherwise the record is built for insertion.
    pub fn on_fingerprint(&mut self, hash: Result<String, IoKind>) -> (r: Action)
        requires
            old(self).phase_spec() == Phase::AwaitFingerprint,
            old(self).total() < u64::MAX,
        ensures
            final(self).current_path() == old(self).current_path(),
            final(self).scanned_count() == old(self).scanned_count(),
            match hash {
                Err(k) => {
                    &&& final(self).skipped_count() == old(self).skipped_count() + 1
                    &&& final(self).phase_spec() == Phase::Idle
                    &&& r == Action::Report(outcome_spec(k))
                },
                Ok(h) => {
                    &&& final(self).skipped_count() == old(self).skipped_count()
                    &&& final(self).phase_spec() == Phase::AwaitInsert
                    &&& r matches Action::Insert(rec) && rec@ == record_spec(
                        old(self).current_path(),
                        old(self).current_meta(),
                        h@,
                    )
                },
            },
    {
        match hash {
            Err(k) => self.skip(classify(k)),
            Ok(h) => {
                self.phase = Phase::AwaitInsert;
                Action::Insert(build_record(self.path.clone(), self.meta, h))
            },
        }
    }

    /// The store's answer to the insert: the file counts as scanned on
    /// success and as skipped on failure; the run goes on either way.
    pub fn on_insert(&mut self, res: Result<(), StoreFailure>) -> (r: Action)
        requires
            old(self).phase_spec() == Phase::AwaitInsert,
            old(self).total() < u64::MAX,
        ensures
            final(self).phase_spec() == Phase::Idle,
            final(self).current_path() == old(self).current_path(),
            res is Ok ==> {
                &&& final(self).scanned_count() == old(self).scanned_count() + 1
                &&& final(self).skipped_count() == old(self).skipped_count()
                &&& r == Action::Report(FileOutcome::Inserted)
            },
            res is Err ==> {
                &&& final(self).scanned_count() == old(self).scanned_count()
                &&& final(self).skipped_count() == old(self).skipped_count() + 1
                &&& r == Action::Report(FileOutcome::InsertFailed)
            },
    {
        match res {
            Ok(()) => {
                self.scanned = self.scanned + 1;
                self.phase = Phase::Idle;
                Action::Report(FileOutcome::Inserted)
            },
            Err(_) => self.skip(FileOutcome::InsertFailed),
        }
    }

    /// The progress observation after `elapsed_ms` milliseconds of the run.
    pub fn progress(&self, elapsed_ms: u64) -> (r: Progress)
        ensures
            r.elapsed_ms == elapsed_ms,
            r.scanned == self.scanned_count(),
            r.skipped == self.skipped_count(),
            elapsed_ms == 0 ==> r.files_per_sec == 0,
            elapsed_ms > 0 ==> r.files_per_sec == self.total() * 1000 / (elapsed_ms as int),
    {
        let total: u128 = self.scanned as u128 + self.skipped as u128;
        let rate: u128 = if elapsed_ms == 0 {
            0
        } else {
            assert(total * 1000 <= u128::MAX) by (nonlinear_arith)
                requires total <= 2 * (u64::MAX as u128);
            total * 1000 / (elapsed_ms as u128)
        };
        Progress { elapsed_ms, scanned: self.scanned, skipped: self.skipped, files_per_sec: rate }
    }
}

} // verus!
