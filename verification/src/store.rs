//! Persistent index layout and metadata.
//!
//! ```text
//! <index-dir>/
//! ├── index-meta.json      provenance & fingerprint (see `IndexMeta`)
//! ├── tantivy/             the lexical index
//! ├── corpus.jsonl         normalized documents (inspectability)
//! └── cache/rustdoc/       versioned rustdoc JSON artifacts
//! ```
use vstd::prelude::*;

use crate::paths::{join, join_path};

verus! {

/// Metadata file name inside an index directory.
pub const META_FILE: &'static str = "index-meta.json";

/// Corpus file name inside an index directory.
pub const CORPUS_FILE: &'static str = "corpus.jsonl";

/// Lexical index directory name inside an index directory.
pub const TANTIVY_DIR: &'static str = "tantivy";

/// The index schema version this library writes and reads.
pub const INDEX_SCHEMA_VERSION: u32 = 1;

/// Everything needed to determine what built an index and whether it is
/// still valid for the current workspace state.
#[derive(Clone, Debug, PartialEq)]
pub struct IndexMeta {
    pub schema_version: u32,
    pub workspace_root: String,
    /// SHA-256 of the workspace Cargo.lock, when present.
    pub lock_hash: String,
    /// Fingerprint of the resolved package universe.
    pub metadata_fingerprint: String,
    /// cargo version used for rustdoc generation.
    pub cargo_version: Option<String>,
    /// Toolchain requested for rustdoc generation (e.g. "nightly").
    pub toolchain: Option<String>,
    /// rustdoc JSON format version of the parsed artifacts.
    pub rustdoc_format_version: Option<u32>,
    pub rustdoc_scope: String,
    pub package_count: usize,
    pub document_count: usize,
    /// Build timestamp (informational; not part of identity).
    pub built_at: String,
    pub skipped: Vec<(String, String)>,
    pub warnings: Vec<String>,
}

impl IndexMeta {
    /// The schema version this index was built with.
    pub fn schema_version(&self) -> (r: u32)
        ensures
            r == self.schema_version,
    {
        self.schema_version
    }

    /// The tantivy index directory inside an index dir.
    pub fn tantivy_dir(index_dir: &str) -> (r: String)
        ensures
            r@ == join(index_dir@, TANTIVY_DIR@),
    {
        join_path(index_dir, TANTIVY_DIR)
    }

    /// The corpus file inside an index dir.
    pub fn corpus_path(index_dir: &str) -> (r: String)
        ensures
            r@ == join(index_dir@, CORPUS_FILE@),
    {
        join_path(index_dir, CORPUS_FILE)
    }

    /// The metadata file inside an index dir.
    pub fn meta_path(index_dir: &str) -> (r: String)
        ensures
            r@ == join(index_dir@, META_FILE@),
    {
        join_path(index_dir, META_FILE)
    }

    /// The schema version this library supports.
    pub fn supported_schema() -> (r: u32)
        ensures
            r == INDEX_SCHEMA_VERSION,
    {
        INDEX_SCHEMA_VERSION
    }
}

} // verus!
