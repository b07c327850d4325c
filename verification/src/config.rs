//! Workspace configuration shared by the `rust-knowledge` frontends.
//!
//! Every field is simultaneously a top-level CLI flag, an environment value
//! and a config-file value; the frontends layer them with CLI > env > file >
//! defaults precedence. This module holds the resolved values and the
//! decisions made from them.
use vstd::prelude::*;

use crate::pipeline::{default_index_dir, default_index_dir_spec};
use crate::text::opt_string_view;

verus! {

/// Workspace knobs shared by `rust-knowledge` and `knowledge-mcp`.
#[derive(Clone, Debug, PartialEq)]
pub struct WorkspaceConfig {
    /// Path to a Cargo.toml manifest. Defaults to the current directory.
    pub manifest_path: Option<String>,
    /// Directory for the knowledge index. Defaults to
    /// `<workspace>/.rust-knowledge`.
    pub index_dir: Option<String>,
    /// Explicit cargo binary for metadata/rustdoc invocations.
    pub cargo: Option<String>,
    /// Tracing env-filter (e.g. "info", "demo_core=debug"); defaults to
    /// "info".
    pub log: String,
}

impl WorkspaceConfig {
    /// The configuration every layer defaults to: nothing set, log "info".
    pub fn defaults() -> (r: WorkspaceConfig)
        ensures
            r.manifest_path is None,
            r.index_dir is None,
            r.cargo is None,
            r.log@ == "info"@,
    {
        WorkspaceConfig { manifest_path: None, index_dir: None, cargo: None, log: "info".to_owned() }
    }

    /// The effective tracing filter for a run: `--verbose` forces "debug";
    /// otherwise the layered `log` value applies.
    pub fn log_filter(&self, verbose: bool) -> (r: String)
        ensures
            r@ == if verbose {
                "debug"@
            } else {
                self.log@
            },
    {
        if verbose {
            "debug".to_owned()
        } else {
            self.log.clone()
        }
    }

    /// The index directory for a resolved workspace root: an explicit
    /// `--index-dir` wins; otherwise `<root>/.rust-knowledge`.
    pub fn resolve_index_dir(&self, workspace_root: &str) -> (r: String)
        ensures
            r@ == match opt_string_view(self.index_dir) {
                Some(dir) => dir,
                None => default_index_dir_spec(workspace_root@),
            },
    {
        match &self.index_dir {
            Some(dir) => dir.clone(),
            None => default_index_dir(workspace_root),
        }
    }
}

} // verus!
