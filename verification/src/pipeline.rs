//! The indexing pipeline's decisions: where an index lives, which rustdoc
//! provider and scope a run uses, and what metadata it records.
use vstd::prelude::*;

use crate::cargo::CargoUniverse;
use crate::error::IndexError;
use crate::paths::{join, join_path};
use crate::store::IndexMeta;
use crate::text::opt_string_view;

verus! {

/// Which packages get rustdoc JSON generated.
#[derive(Clone, Copy, Debug, PartialEq, Eq, Structural)]
pub enum RustdocScope {
    /// Workspace members only.
    Workspace,
    /// Every resolved package.
    All,
    /// No rustdoc at all (metadata and Markdown only).
    Disabled,
}

/// The name a scope is written with.
pub open spec fn scope_name(s: RustdocScope) -> Seq<char> {
    match s {
        RustdocScope::Workspace => "Workspace"@,
        RustdocScope::All => "All"@,
        RustdocScope::Disabled => "None"@,
    }
}

impl RustdocScope {
    /// Parses `workspace`, `all` or `none`.
    pub fn parse(name: &str) -> (r: Option<RustdocScope>)
        ensures
            r == if name@ == "workspace"@ {
                Some(RustdocScope::Workspace)
            } else if name@ == "all"@ {
                Some(RustdocScope::All)
            } else if name@ == "none"@ {
                Some(RustdocScope::Disabled)
            } else {
                None::<RustdocScope>
            },
    {
        if crate::text::str_eq(name, "workspace") {
            Some(RustdocScope::Workspace)
        } else if crate::text::str_eq(name, "all") {
            Some(RustdocScope::All)
        } else if crate::text::str_eq(name, "none") {
            Some(RustdocScope::Disabled)
        } else {
            None
        }
    }

    /// The scope's name as `{:?}` prints it (`Workspace`, `All`, `None`).
    pub fn name(&self) -> (r: &'static str)
        ensures
            r@ == scope_name(*self),
    {
        match self {
            RustdocScope::Workspace => "Workspace",
            RustdocScope::All => "All",
            RustdocScope::Disabled => "None",
        }
    }
}

/// Options of an indexing run.
#[derive(Clone, Debug)]
pub struct IndexOptions {
    pub rustdoc_scope: RustdocScope,
    /// Toolchain passed to cargo for rustdoc generation (default "nightly").
    pub toolchain: Option<String>,
    /// Read prebuilt rustdoc JSON from this directory instead of invoking
    /// cargo.
    pub prebuilt_rustdoc: Option<String>,
    /// Skip rustdoc entirely (metadata + Markdown only).
    pub skip_rustdoc: bool,
}

impl Default for IndexOptions {
    fn default() -> (r: IndexOptions)
        ensures
            r.rustdoc_scope == RustdocScope::Workspace,
            opt_string_view(r.toolchain) == Some("nightly"@),
            r.prebuilt_rustdoc is None,
            !r.skip_rustdoc,
    {
        IndexOptions {
            rustdoc_scope: RustdocScope::Workspace,
            toolchain: Some("nightly".to_owned()),
            prebuilt_rustdoc: None,
            skip_rustdoc: false,
        }
    }
}

/// What a corpus build reports about itself.
#[derive(Clone, Debug)]
pub struct CorpusReport {
    /// Packages in the universe.
    pub packages: usize,
    /// Packages whose rustdoc JSON was normalized.
    pub rustdoc_packages: usize,
    /// Markdown files chunked.
    pub markdown_files: usize,
    /// `cargo --version` of the rustdoc generation, when cargo ran.
    pub cargo_version: Option<String>,
    /// rustdoc JSON format version of the parsed artifacts.
    pub rustdoc_format_version: Option<u32>,
    /// (package spec, reason) for every package whose rustdoc was skipped.
    pub skipped: Vec<(String, String)>,
    pub warnings: Vec<String>,
}

/// Result of a successful indexing run.
pub struct IndexOutcome {
    pub meta: IndexMeta,
    pub corpus: CorpusReport,
    pub index_dir: String,
}

/// Where rustdoc JSON comes from in a run.
#[derive(Clone, Debug, PartialEq)]
pub enum ProviderChoice {
    /// Prebuilt artifacts read from this directory.
    Prebuilt(String),
    /// Artifacts generated by cargo into this cache directory.
    Generated { artifact_dir: String, toolchain: Option<String> },
}

/// `<root>/.rust-knowledge`.
pub open spec fn default_index_dir_spec(root: Seq<char>) -> Seq<char> {
    join(root, ".rust-knowledge"@)
}

/// Default index directory for a workspace root.
pub fn default_index_dir(workspace_root: &str) -> (r: String)
    ensures
        r@ == default_index_dir_spec(workspace_root@),
{
    join_path(workspace_root, ".rust-knowledge")
}

/// The scope a run uses: `None` when rustdoc is skipped, else the option's.
pub fn effective_scope(options: &IndexOptions) -> (r: RustdocScope)
    ensures
        r == if options.skip_rustdoc {
            RustdocScope::Disabled
        } else {
            options.rustdoc_scope
        },
{
    if options.skip_rustdoc {
        RustdocScope::Disabled
    } else {
        options.rustdoc_scope
    }
}

/// The rustdoc provider a run uses: prebuilt artifacts when a directory is
/// given, otherwise generation into `<index_dir>/cache/rustdoc`.
pub fn provider_for(options: &IndexOptions, index_dir: &str) -> (r: ProviderChoice)
    ensures
        match opt_string_view(options.prebuilt_rustdoc) {
            Some(dir) => r matches ProviderChoice::Prebuilt(d) && d@ == dir,
            None => r matches ProviderChoice::Generated { artifact_dir, toolchain } && artifact_dir@
                == join(join(index_dir@, "cache"@), "rustdoc"@) && opt_string_view(toolchain)
                == opt_string_view(options.toolchain),
        },
{
    match &options.prebuilt_rustdoc {
        Some(dir) => ProviderChoice::Prebuilt(dir.clone()),
        None => {
            let cache = join_path(index_dir, "cache");
            ProviderChoice::Generated {
                artifact_dir: join_path(cache.as_str(), "rustdoc"),
                toolchain: match &options.toolchain {
                    Some(t) => Some(t.clone()),
                    None => None,
                },
            }
        },
    }
}

/// Copies a list of (spec, reason) pairs.
fn clone_pairs(v: &Vec<(String, String)>) -> (r: Vec<(String, String)>)
    ensures
        r@.len() == v@.len(),
        forall|i: int|
            0 <= i < v@.len() ==> (#[trigger] r@[i]).0@ == v@[i].0@ && r@[i].1@ == v@[i].1@,
{
    let mut out: Vec<(String, String)> = Vec::new();
    let mut i: usize = 0;
    while i < v.len()
        invariant
            i <= v@.len(),
            out@.len() == i,
            forall|j: int| 0 <= j < i ==> (#[trigger] out@[j]).0@ == v@[j].0@ && out@[j].1@ == v@[j].1@,
        decreases v@.len() - i,
    {
        out.push((v[i].0.clone(), v[i].1.clone()));
        i = i + 1;
    }
    out
}

/// The metadata an indexing run records: the universe's root and
/// fingerprint, what the corpus build reported, and the run's options.
pub fn index_meta(
    universe: &CargoUniverse,
    corpus: &CorpusReport,
    options: &IndexOptions,
    document_count: usize,
    lock_hash: String,
    built_at: String,
) -> (r: IndexMeta)
    ensures
        r.schema_version == crate::store::INDEX_SCHEMA_VERSION,
        r.workspace_root@ == universe.workspace_root_spec(),
        r.lock_hash == lock_hash,
        r.metadata_fingerprint@ == crate::cargo::fingerprint_spec(
            universe.workspace_root_spec(),
            universe.packages_spec(),
        ),
        opt_string_view(r.cargo_version) == opt_string_view(corpus.cargo_version),
        opt_string_view(r.toolchain) == opt_string_view(options.toolchain),
        r.rustdoc_format_version == corpus.rustdoc_format_version,
        r.rustdoc_scope@ == scope_name(
            if options.skip_rustdoc {
                RustdocScope::Disabled
            } else {
                options.rustdoc_scope
            },
        ),
        r.package_count == corpus.packages,
        r.document_count == document_count,
        r.built_at == built_at,
        r.skipped@.len() == corpus.skipped@.len(),
        forall|i: int|
            0 <= i < r.skipped@.len() ==> (#[trigger] r.skipped@[i]).0@ == corpus.skipped@[i].0@
                && r.skipped@[i].1@ == corpus.skipped@[i].1@,
        crate::model::views(r.warnings@) == crate::model::views(corpus.warnings@),
{
    let scope = effective_scope(options);
    IndexMeta {
        schema_version: IndexMeta::supported_schema(),
        workspace_root: universe.workspace_root().to_owned(),
        lock_hash,
        metadata_fingerprint: universe.fingerprint(),
        cargo_version: match &corpus.cargo_version {
            Some(v) => Some(v.clone()),
            None => None,
        },
        toolchain: match &options.toolchain {
            Some(t) => Some(t.clone()),
            None => None,
        },
        rustdoc_format_version: corpus.rustdoc_format_version,
        rustdoc_scope: scope.name().to_owned(),
        package_count: corpus.packages,
        document_count,
        built_at,
        skipped: clone_pairs(&corpus.skipped),
        warnings: crate::cargo::clone_strings(&corpus.warnings),
    }
}

/// Where a served index lives, plus the workspace context resolution had.
#[derive(Clone, Debug, PartialEq)]
pub struct ResolvedIndex {
    /// The index directory to open.
    pub index_dir: String,
    /// Workspace root as reported by cargo metadata, when it ran; `None`
    /// when an explicit index dir made cargo metadata unnecessary.
    pub workspace_root: Option<String>,
}

/// Resolves which index directory to serve, without opening it: an
/// explicit `index_dir` wins and never loads the workspace; otherwise the
/// workspace is loaded (from `manifest_path` when given) and the index
/// defaults to `<workspace_root>/.rust-knowledge`. A load failure is
/// returned as is.
pub fn resolve_index<L>(manifest_path: Option<&str>, index_dir: Option<&str>, load: L) -> (r: Result<
    ResolvedIndex,
    IndexError,
>) where L: FnOnce(Option<&str>) -> Result<CargoUniverse, IndexError>
    requires
        index_dir is None ==> call_requires(load, (manifest_path,)),
    ensures
        match index_dir {
            Some(dir) => r matches Ok(res) && res.index_dir@ == dir@ && res.workspace_root is None,
            None => exists|loaded: Result<CargoUniverse, IndexError>|
                {
                    &&& call_ensures(load, (manifest_path,), loaded)
                    &&& match loaded {
                        Ok(u) => r matches Ok(res) && res.index_dir@ == default_index_dir_spec(
                            u.workspace_root_spec(),
                        ) && opt_string_view(res.workspace_root) == Some(u.workspace_root_spec()),
                        Err(e) => r == Err::<ResolvedIndex, IndexError>(e),
                    }
                },
        },
{
    match index_dir {
        Some(dir) => Ok(ResolvedIndex { index_dir: dir.to_owned(), workspace_root: None }),
        None => {
            let loaded = load(manifest_path);
            let ghost snapshot = loaded;
            match loaded {
                Ok(universe) => {
                    let workspace_root = universe.workspace_root().to_owned();
                    let r = ResolvedIndex {
                        index_dir: default_index_dir(workspace_root.as_str()),
                        workspace_root: Some(workspace_root),
                    };
                    assert(call_ensures(load, (manifest_path,), snapshot));
                    Ok(r)
                },
                Err(e) => Err(e),
            }
        },
    }
}

} // verus!
