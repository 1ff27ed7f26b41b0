use file_optimizer::fingerprint::fingerprint;
use file_optimizer::pipeline::IoKind;
use file_optimizer::record::FileMeta;
use file_optimizer::scan::{scan_files, ObservedFile};
use file_optimizer::store::MemoryInventory;

fn present(path: &str, content: &[u8], modified: u64) -> ObservedFile {
    ObservedFile {
        path: path.to_string(),
        meta: Ok(FileMeta { size: content.len() as u64, modified_secs: Some(modified) }),
        content: Ok(content.to_vec()),
    }
}

fn root_files() -> Vec<ObservedFile> {
    vec![
        present("/root/a.txt", b"hello", 100),
        present("/root/b.txt", b"hello", 200),
        present("/root/c.txt", b"world", 300),
    ]
}

#[test]
fn three_files_two_sharing_content() {
    let mut inv = MemoryInventory::new();
    let (scanned, skipped) = scan_files(&mut inv, &root_files());
    assert_eq!((scanned, skipped), (3, 0));
    assert_eq!(inv.len(), 3);
    let a = inv.get(0);
    let b = inv.get(1);
    let c = inv.get(2);
    assert_eq!(a.file_path, "/root/a.txt");
    assert_eq!(b.file_path, "/root/b.txt");
    assert_eq!(c.file_path, "/root/c.txt");
    assert_eq!(a.file_hash, b.file_hash);
    assert_ne!(a.file_hash, c.file_hash);
    assert_eq!(a.file_hash, fingerprint(b"hello"));
    assert_eq!(a.file_size, 5);
    assert_eq!(b.file_size, 5);
    assert_eq!(c.file_size, 5);
    assert_eq!(a.last_modified, 100);
    assert_eq!(c.file_directory, "/root");
}

#[test]
fn second_run_scans_nothing() {
    let mut inv = MemoryInventory::new();
    let files = root_files();
    assert_eq!(scan_files(&mut inv, &files), (3, 0));
    let hashes: Vec<String> = (0..inv.len()).map(|i| inv.get(i).file_hash.clone()).collect();
    assert_eq!(scan_files(&mut inv, &files), (0, 3));
    assert_eq!(inv.len(), 3);
    for (i, h) in hashes.iter().enumerate() {
        assert_eq!(&inv.get(i).file_hash, h);
    }
}

#[test]
fn overlapping_roots_keep_paths_unique() {
    let mut inv = MemoryInventory::new();
    scan_files(&mut inv, &root_files());
    let more = vec![present("/root/b.txt", b"changed", 400), present("/other/d.txt", b"d", 500)];
    assert_eq!(scan_files(&mut inv, &more), (1, 1));
    assert_eq!(inv.len(), 4);
    let mut paths: Vec<String> = (0..inv.len()).map(|i| inv.get(i).file_path.clone()).collect();
    paths.sort();
    paths.dedup();
    assert_eq!(paths.len(), 4);
    assert_eq!(inv.get(1).file_hash, fingerprint(b"hello"));
}

#[test]
fn file_deleted_before_stat_is_skipped() {
    let mut inv = MemoryInventory::new();
    let files = vec![
        present("/root/a.txt", b"hello", 1),
        ObservedFile {
            path: "/root/gone.txt".to_string(),
            meta: Err(IoKind::NotFound),
            content: Err(IoKind::NotFound),
        },
        present("/root/c.txt", b"world", 3),
    ];
    assert_eq!(scan_files(&mut inv, &files), (2, 1));
    assert_eq!(inv.len(), 2);
    assert_eq!(inv.get(1).file_path, "/root/c.txt");
}

#[test]
fn unreadable_content_writes_nothing() {
    let mut inv = MemoryInventory::new();
    let files = vec![
        ObservedFile {
            path: "/root/secret".to_string(),
            meta: Ok(FileMeta { size: 10, modified_secs: None }),
            content: Err(IoKind::PermissionDenied),
        },
        ObservedFile {
            path: "/root/broken".to_string(),
            meta: Ok(FileMeta { size: 10, modified_secs: None }),
            content: Err(IoKind::Other),
        },
    ];
    assert_eq!(scan_files(&mut inv, &files), (0, 2));
    assert_eq!(inv.len(), 0);
}

#[test]
fn missing_modification_time_uses_sentinel() {
    let mut inv = MemoryInventory::new();
    let files = vec![ObservedFile {
        path: "/x/y/z.bin".to_string(),
        meta: Ok(FileMeta { size: 0, modified_secs: None }),
        content: Ok(vec![]),
    }];
    assert_eq!(scan_files(&mut inv, &files), (1, 0));
    let r = inv.get(0);
    assert_eq!(r.last_modified, -1);
    assert_eq!(r.file_size, 0);
    assert_eq!(r.file_directory, "/x/y");
    assert_eq!(r.file_hash, "e3b0c44298fc1c149afbf4c8996fb92427ae41e4649b934ca495991b7852b855");
}

#[test]
fn empty_root_scans_nothing() {
    let mut inv = MemoryInventory::new();
    assert_eq!(scan_files(&mut inv, &vec![]), (0, 0));
    assert_eq!(inv.len(), 0);
}
