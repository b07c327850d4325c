//! Decisions of the MCP server's startup: which workspace to serve, and
//! what a failure to open its index is reported as.
//!
//! The server needs no per-repo configuration: the workspace is inferred
//! from the working directory (the nearest `Cargo.toml` at or above it);
//! an explicit `--manifest-path` beats the inference, and an explicit index
//! directory (`--index-dir` or `RUST_KNOWLEDGE_INDEX_DIR`) makes the
//! manifest irrelevant.
use vstd::prelude::*;

use crate::error::{index_error_message, IndexError, KnowledgeError};
use crate::text::{opt_string_view, opt_view, push_str, to_owned};
use crate::workspace::{first_existing_spec, manifest_candidates_spec, nearest_manifest};

verus! {

/// How the manifest was determined for this run.
#[derive(Clone, Copy, Debug, PartialEq, Eq, Structural)]
pub enum ManifestSource {
    Explicit,
    InferredFromCwd,
    UnusedExplicitIndexDir,
}

/// The startup-log label of a manifest source.
pub open spec fn manifest_source_name(s: ManifestSource) -> Seq<char> {
    match s {
        ManifestSource::Explicit => "explicit --manifest-path"@,
        ManifestSource::InferredFromCwd => "inferred from cwd"@,
        ManifestSource::UnusedExplicitIndexDir => "unused (explicit index dir)"@,
    }
}

impl ManifestSource {
    /// The startup-log label.
    pub fn as_str(&self) -> (r: &'static str)
        ensures
            r@ == manifest_source_name(*self),
    {
        match self {
            ManifestSource::Explicit => "explicit --manifest-path",
            ManifestSource::InferredFromCwd => "inferred from cwd",
            ManifestSource::UnusedExplicitIndexDir => "unused (explicit index dir)",
        }
    }
}

/// The error when the working directory cannot be determined.
pub open spec fn cwd_error_message(cause: Seq<char>) -> Seq<char> {
    "failed to determine the current working directory: "@ + cause
        + ". Pass --manifest-path /path/to/workspace/Cargo.toml to serve a specific workspace."@
}

/// The error when no manifest is found at or above the working directory.
pub open spec fn no_manifest_message(cwd: Seq<char>) -> Seq<char> {
    "no Cargo.toml at or above the current working directory ("@ + cwd
        + "); cannot infer which workspace to serve. Pass --manifest-path /path/to/workspace/Cargo.toml, or launch knowledge-mcp with its working directory inside the workspace (stdio MCP clients usually set cwd to the project directory)."@
}

/// Chooses the manifest of the workspace to serve. An explicit index
/// directory makes the manifest unused; else an explicit manifest is used;
/// else the nearest `Cargo.toml` at or above the working directory `cwd`
/// (or the error that kept it from being determined) is looked for, as
/// [`nearest_manifest`] checks the candidates.
pub fn choose_manifest(
    manifest_path: Option<String>,
    index_dir_explicit: bool,
    cwd: Result<String, String>,
) -> (r: Result<(Option<String>, ManifestSource), String>)
    ensures
        index_dir_explicit ==> (r matches Ok((m, s)) && m is None && s
            == ManifestSource::UnusedExplicitIndexDir),
        !index_dir_explicit && manifest_path is Some ==> (r matches Ok((m, s)) && opt_string_view(m)
            == opt_string_view(manifest_path) && s == ManifestSource::Explicit),
        !index_dir_explicit && manifest_path is None ==> match cwd {
            Err(cause) => r matches Err(msg) && msg@ == cwd_error_message(cause@),
            Ok(dir) => exists|answers: Seq<bool>|
                #![trigger first_existing_spec(manifest_candidates_spec(dir@), answers)]
                {
                    &&& answers.len() == manifest_candidates_spec(dir@).len()
                    &&& match r {
                        Ok((Some(m), s)) => s == ManifestSource::InferredFromCwd
                            && first_existing_spec(manifest_candidates_spec(dir@), answers) == Some(
                            m@,
                        ),
                        Ok((None, _)) => false,
                        Err(msg) => first_existing_spec(manifest_candidates_spec(dir@), answers)
                            is None && msg@ == no_manifest_message(dir@),
                    }
                },
        },
{
    if index_dir_explicit {
        return Ok((None, ManifestSource::UnusedExplicitIndexDir));
    }
    match manifest_path {
        Some(path) => Ok((Some(path), ManifestSource::Explicit)),
        None => match cwd {
            Err(cause) => {
                let mut msg = to_owned("failed to determine the current working directory: ");
                push_str(&mut msg, cause.as_str());
                push_str(
                    &mut msg,
                    ". Pass --manifest-path /path/to/workspace/Cargo.toml to serve a specific workspace.",
                );
                Err(msg)
            },
            Ok(dir) => match nearest_manifest(dir.as_str()) {
                Some(manifest) => Ok((Some(manifest), ManifestSource::InferredFromCwd)),
                None => {
                    let mut msg = to_owned(
                        "no Cargo.toml at or above the current working directory (",
                    );
                    push_str(&mut msg, dir.as_str());
                    push_str(
                        &mut msg,
                        "); cannot infer which workspace to serve. Pass --manifest-path /path/to/workspace/Cargo.toml, or launch knowledge-mcp with its working directory inside the workspace (stdio MCP clients usually set cwd to the project directory).",
                    );
                    Err(msg)
                },
            },
        },
    }
}

/// The command that rebuilds the index.
pub open spec fn rebuild_command(manifest: Option<Seq<char>>) -> Seq<char> {
    match manifest {
        Some(path) => "rust-knowledge index --manifest-path "@ + path,
        None => "rust-knowledge index"@,
    }
}

/// What a failure to open the index is reported as. A missing index names
/// the index directory and how to build one: with the workspace and the
/// exact rebuild command when the directory was inferred; every other
/// failure passes through with the index directory named.
pub open spec fn open_error_message(
    e: IndexError,
    index_dir: Seq<char>,
    workspace_root: Option<Seq<char>>,
    manifest: Option<Seq<char>>,
    index_dir_explicit: bool,
) -> Seq<char> {
    match e {
        IndexError::Knowledge(KnowledgeError::NoIndex { .. }) => if index_dir_explicit {
            "no knowledge index at "@ + index_dir
                + " (set via --index-dir or RUST_KNOWLEDGE_INDEX_DIR). Build one with `rust-knowledge index --index-dir "@
                + index_dir
                + "` from inside the workspace, or point the flag at an existing index."@
        } else {
            let root = match workspace_root {
                Some(r) => r,
                None => "<unknown>"@,
            };
            "no knowledge index for workspace "@ + root + ": expected index directory "@
                + index_dir + ". Build it first with `"@ + rebuild_command(manifest)
                + "`, then restart this MCP server (or point --index-dir / RUST_KNOWLEDGE_INDEX_DIR at an existing index)."@
        },
        _ => "failed to open the knowledge index at "@ + index_dir + ": "@ + index_error_message(
            e,
        ),
    }
}

/// Maps an index-open failure to an actionable message.
pub fn index_open_error(
    e: &IndexError,
    index_dir: &str,
    workspace_root: Option<&str>,
    manifest: Option<&str>,
    index_dir_explicit: bool,
) -> (r: String)
    ensures
        r@ == open_error_message(
            *e,
            index_dir@,
            opt_view(workspace_root),
            opt_view(manifest),
            index_dir_explicit,
        ),
{
    let missing = match e {
        IndexError::Knowledge(KnowledgeError::NoIndex { .. }) => true,
        _ => false,
    };
    if missing && index_dir_explicit {
        let mut msg = to_owned("no knowledge index at ");
        push_str(&mut msg, index_dir);
        push_str(
            &mut msg,
            " (set via --index-dir or RUST_KNOWLEDGE_INDEX_DIR). Build one with `rust-knowledge index --index-dir ",
        );
        push_str(&mut msg, index_dir);
        push_str(
            &mut msg,
            "` from inside the workspace, or point the flag at an existing index.",
        );
        msg
    } else if missing {
        let mut msg = to_owned("no knowledge index for workspace ");
        match workspace_root {
            Some(root) => push_str(&mut msg, root),
            None => push_str(&mut msg, "<unknown>"),
        }
        push_str(&mut msg, ": expected index directory ");
        push_str(&mut msg, index_dir);
        push_str(&mut msg, ". Build it first with `");
        match manifest {
            Some(path) => {
                push_str(&mut msg, "rust-knowledge index --manifest-path ");
                push_str(&mut msg, path);
            },
            None => push_str(&mut msg, "rust-knowledge index"),
        }
        push_str(
            &mut msg,
            "`, then restart this MCP server (or point --index-dir / RUST_KNOWLEDGE_INDEX_DIR at an existing index).",
        );
        msg
    } else {
        let mut msg = to_owned("failed to open the knowledge index at ");
        push_str(&mut msg, index_dir);
        push_str(&mut msg, ": ");
        let m = e.message();
        push_str(&mut msg, m.as_str());
        msg
    }
}

/// The startup-log label of the index directory's origin.
pub fn index_dir_source(index_dir_explicit: bool) -> (r: &'static str)
    ensures
        r@ == if index_dir_explicit {
            "explicit (--index-dir or RUST_KNOWLEDGE_INDEX_DIR)"@
        } else {
            "workspace default (<workspace>/.rust-knowledge)"@
        },
{
    if index_dir_explicit {
        "explicit (--index-dir or RUST_KNOWLEDGE_INDEX_DIR)"
    } else {
        "workspace default (<workspace>/.rust-knowledge)"
    }
}

} // verus!
