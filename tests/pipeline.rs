use file_optimizer::pipeline::{
    already_scanned, classify, Action, FileOutcome, IoKind, Phase, ScanSession, StoreFailure,
};
use file_optimizer::record::{build_record, epoch_seconds, FileMeta, UNKNOWN_MODIFIED};
use file_optimizer::store::MemoryInventory;

#[test]
fn gate_answers_from_count() {
    assert!(!already_scanned(Ok(0)));
    assert!(already_scanned(Ok(1)));
    assert!(already_scanned(Ok(2)));
}

#[test]
fn gate_fails_open() {
    assert!(!already_scanned(Err(StoreFailure)));
    let mut s = ScanSession::new();
    let a = s.begin_file("/r/a".to_string());
    assert!(matches!(a, Action::CountMatching(ref p) if p == "/r/a"));
    let a = s.on_exists(Err(StoreFailure));
    assert!(matches!(a, Action::Stat(ref p) if p == "/r/a"));
    assert_eq!(s.phase(), Phase::AwaitStat);
    assert_eq!(s.skipped(), 0);
}

#[test]
fn known_path_is_skipped() {
    let mut s = ScanSession::new();
    s.begin_file("/r/a".to_string());
    let a = s.on_exists(Ok(1));
    assert!(matches!(a, Action::Report(FileOutcome::AlreadyScanned)));
    assert_eq!((s.scanned(), s.skipped()), (0, 1));
    assert!(s.ready());
}

#[test]
fn classification_of_io_errors() {
    assert_eq!(classify(IoKind::NotFound), FileOutcome::NotFound);
    assert_eq!(classify(IoKind::PermissionDenied), FileOutcome::PermissionDenied);
    assert_eq!(classify(IoKind::Other), FileOutcome::Failed);
}

#[test]
fn stat_failure_skips() {
    let mut s = ScanSession::new();
    s.begin_file("/r/gone".to_string());
    s.on_exists(Ok(0));
    let a = s.on_stat(Err(IoKind::NotFound));
    assert!(matches!(a, Action::Report(FileOutcome::NotFound)));
    assert_eq!((s.scanned(), s.skipped()), (0, 1));
    assert_eq!(s.phase(), Phase::Idle);
}

#[test]
fn full_file_round_inserts() {
    let mut s = ScanSession::new();
    s.begin_file("/r/dir/a.txt".to_string());
    s.on_exists(Ok(0));
    let meta = FileMeta { size: 5, modified_secs: Some(1_700_000_000) };
    let a = s.on_stat(Ok(meta));
    assert!(matches!(a, Action::Fingerprint(ref p) if p == "/r/dir/a.txt"));
    let a = s.on_fingerprint(Ok("abcd".to_string()));
    match a {
        Action::Insert(rec) => {
            assert_eq!(rec.file_path, "/r/dir/a.txt");
            assert_eq!(rec.file_hash, "abcd");
            assert_eq!(rec.file_size, 5);
            assert_eq!(rec.last_modified, 1_700_000_000);
            assert_eq!(rec.file_directory, "/r/dir");
        }
        _ => panic!("expected an insert"),
    }
    let a = s.on_insert(Ok(()));
    assert!(matches!(a, Action::Report(FileOutcome::Inserted)));
    assert_eq!((s.scanned(), s.skipped()), (1, 0));
}

#[test]
fn read_failure_skips_without_record() {
    let mut s = ScanSession::new();
    s.begin_file("/r/a".to_string());
    s.on_exists(Ok(0));
    s.on_stat(Ok(FileMeta { size: 1, modified_secs: None }));
    let a = s.on_fingerprint(Err(IoKind::Other));
    assert!(matches!(a, Action::Report(FileOutcome::Failed)));
    assert_eq!((s.scanned(), s.skipped()), (0, 1));
}

#[test]
fn insert_failure_is_per_file() {
    let mut s = ScanSession::new();
    s.begin_file("/r/a".to_string());
    s.on_exists(Err(StoreFailure));
    s.on_stat(Ok(FileMeta { size: 1, modified_secs: None }));
    s.on_fingerprint(Ok("ff".to_string()));
    let a = s.on_insert(Err(StoreFailure));
    assert!(matches!(a, Action::Report(FileOutcome::InsertFailed)));
    assert_eq!((s.scanned(), s.skipped()), (0, 1));
    assert!(s.ready());
}

#[test]
fn progress_rate() {
    let mut s = ScanSession::new();
    for (i, count) in [0u64, 1, 0, 0].iter().enumerate() {
        s.begin_file(format!("/r/{}", i));
        if let Action::Stat(_) = s.on_exists(Ok(*count)) {
            s.on_stat(Ok(FileMeta { size: 0, modified_secs: None }));
            s.on_fingerprint(Ok("00".to_string()));
            s.on_insert(Ok(()));
        }
    }
    let p = s.progress(2000);
    assert_eq!((p.elapsed_ms, p.scanned, p.skipped, p.files_per_sec), (2000, 3, 1, 2));
    assert_eq!(s.progress(0).files_per_sec, 0);
    assert_eq!(s.progress(3).files_per_sec, 1333);
}

#[test]
fn epoch_conversion() {
    assert_eq!(epoch_seconds(Some(5)), 5);
    assert_eq!(epoch_seconds(None), UNKNOWN_MODIFIED);
    assert_eq!(epoch_seconds(Some(u64::MAX)), -1);
    assert_eq!(epoch_seconds(Some(i64::MAX as u64)), i64::MAX);
}

#[test]
fn record_directory_is_parent() {
    let r = build_record("/a/b/c.txt".to_string(), FileMeta { size: 3, modified_secs: Some(9) }, "h".to_string());
    assert_eq!(r.file_directory, "/a/b");
    let r = build_record("c.txt".to_string(), FileMeta { size: 3, modified_secs: Some(9) }, "h".to_string());
    assert_eq!(r.file_directory, "");
    let r = build_record("/".to_string(), FileMeta { size: 0, modified_secs: None }, "h".to_string());
    assert_eq!(r.file_directory, "");
}

#[test]
fn inventory_rejects_duplicate_path() {
    let mut inv = MemoryInventory::new();
    let meta = FileMeta { size: 1, modified_secs: None };
    assert!(inv.insert_one(build_record("/p".to_string(), meta, "a".to_string())).is_ok());
    assert_eq!(inv.count_matching(&"/p".to_string()), 1);
    assert_eq!(inv.count_matching(&"/q".to_string()), 0);
    assert_eq!(inv.insert_one(build_record("/p".to_string(), meta, "b".to_string())), Err(StoreFailure));
    assert_eq!(inv.len(), 1);
    assert_eq!(inv.get(0).file_hash, "a");
}
