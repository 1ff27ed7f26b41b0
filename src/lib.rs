//! Incremental file inventory: content fingerprints, the record model, the
//! per-file ingestion decisions, an in-memory store with a unique path index
//! and whole scan runs against it, and the line framing of the export stream.
pub mod fingerprint;
pub mod record;
pub mod pipeline;
pub mod store;
pub mod scan;
pub mod export;
