//! The inventory record: one entry per file path, with the file's content
//! fingerprint and what `stat` reported when it was scanned.
use vstd::prelude::*;

verus! {

/// What a `stat` of a file reported.
#[derive(Clone, Copy, Debug, PartialEq, Eq, Structural)]
pub struct FileMeta {
    /// Byte length.
    pub size: u64,
    /// Modification time in whole seconds since the Unix epoch, if available.
    pub modified_secs: Option<u64>,
}

/// One persisted inventory entry.
#[derive(Clone, Debug)]
pub struct InventoryRecord {
    pub file_path: String,
    pub file_hash: String,
    pub file_size: u64,
    /// Seconds since the Unix epoch, or `UNKNOWN_MODIFIED` when unavailable.
    pub last_modified: i64,
    pub file_directory: String,
}

/// The mathematical content of an `InventoryRecord`.
pub struct RecordView {
    pub file_path: Seq<char>,
    pub file_hash: Seq<char>,
    pub file_size: u64,
    pub last_modified: i64,
    pub file_directory: Seq<char>,
}

impl View for InventoryRecord {
    type V = RecordView;

    open spec fn view(&self) -> RecordView {
        RecordView {
            file_path: self.file_path@,
            file_hash: self.file_hash@,
            file_size: self.file_size,
            last_modified: self.last_modified,
            file_directory: self.file_directory@,
        }
    }
}

/// The sentinel stored when a modification time cannot be expressed.
pub const UNKNOWN_MODIFIED: i64 = -1;

/// The directory part of a path under the target's path syntax, or `None`
/// when the path has no parent (it is a root or empty).
pub uninterp spec fn parent_of(path: Seq<char>) -> Option<Seq<char>>;

/// The stored directory of a path: its parent, or empty when it has none.
pub open spec fn directory_of(path: Seq<char>) -> Seq<char> {
    match parent_of(path) {
        Some(d) => d,
        None => Seq::empty(),
    }
}

/// The stored modification time for what `stat` reported.
pub open spec fn epoch_value(modified_secs: Option<u64>) -> i64 {
    match modified_secs {
        Some(s) => if s <= i64::MAX as u64 { s as i64 } else { UNKNOWN_MODIFIED },
        None => UNKNOWN_MODIFIED,
    }
}

/// The record built for `path` from its `stat` result and its fingerprint.
pub open spec fn record_spec(path: Seq<char>, meta: FileMeta, hash: Seq<char>) -> RecordView {
    RecordView {
        file_path: path,
        file_hash: hash,
        file_size: meta.size,
        last_modified: epoch_value(meta.modified_secs),
        file_directory: directory_of(path),
    }
}

/// Relies on `std::path::Path::parent`: the path without its final component,
/// or `None` when there is none.
#[verifier::external_body]
fn parent_directory(path: &str) -> (r: Option<String>)
    ensures
        match parent_of(path@) {
            Some(d) => r matches Some(s) && s@ == d,
            None => r is None,
        },
{
    std::path::Path::new(path).parent().and_then(|p| p.to_str()).map(|p| p.to_string())
}

/// Converts a modification time to the stored epoch value: seconds when they
/// fit in an `i64`, the sentinel otherwise.
pub fn epoch_seconds(modified_secs: Option<u64>) -> (r: i64)
    ensures
        r == epoch_value(modified_secs),
{
    match modified_secs {
        Some(s) => if s <= i64::MAX as u64 { s as i64 } else { UNKNOWN_MODIFIED },
        None => UNKNOWN_MODIFIED,
    }
}

/// Builds the record for a file that was stat'd and fingerprinted.
pub fn build_record(path: String, meta: FileMeta, hash: String) -> (r: InventoryRecord)
    ensures
        r@ == record_spec(path@, meta, hash@),
{
    let dir = match parent_directory(path.as_str()) {
        Some(d) => d,
        None => String::new(),
    };
    InventoryRecord {
        file_path: path,
        file_hash: hash,
        file_size: meta.size,
        last_modified: epoch_seconds(meta.modified_secs),
        file_directory: dir,
    }
}

} // verus!
