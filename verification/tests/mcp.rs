use rust_knowledge::error::{IndexError, KnowledgeError};
use rust_knowledge::mcp::{choose_manifest, index_dir_source, index_open_error, ManifestSource};

#[test]
fn explicit_index_dir_makes_the_manifest_unused() {
    let (manifest, source) =
        choose_manifest(Some("/ws/Cargo.toml".to_string()), true, Err("gone".to_string()))
            .expect("an explicit index dir needs no manifest");
    assert_eq!(manifest, None);
    assert_eq!(source, ManifestSource::UnusedExplicitIndexDir);
    assert_eq!(source.as_str(), "unused (explicit index dir)");
}

#[test]
fn explicit_manifest_beats_inference() {
    let (manifest, source) =
        choose_manifest(Some("/ws/Cargo.toml".to_string()), false, Err("gone".to_string()))
            .expect("an explicit manifest is used as given");
    assert_eq!(manifest.as_deref(), Some("/ws/Cargo.toml"));
    assert_eq!(source, ManifestSource::Explicit);
    assert_eq!(source.as_str(), "explicit --manifest-path");
}

#[test]
fn unknown_cwd_is_an_actionable_error() {
    let err = choose_manifest(None, false, Err("permission denied".to_string())).unwrap_err();
    assert_eq!(
        err,
        "failed to determine the current working directory: permission denied. Pass --manifest-path /path/to/workspace/Cargo.toml to serve a specific workspace."
    );
}

#[test]
fn no_manifest_above_the_cwd_names_the_fix() {
    let err = choose_manifest(None, false, Ok("/definitely/not/a/workspace".to_string()))
        .unwrap_err();
    assert!(err.starts_with(
        "no Cargo.toml at or above the current working directory (/definitely/not/a/workspace); cannot infer which workspace to serve."
    ));
    assert!(err.contains("Pass --manifest-path /path/to/workspace/Cargo.toml"));
}

#[test]
fn missing_index_messages_name_the_rebuild_command() {
    let missing = IndexError::Knowledge(KnowledgeError::NoIndex { path: "/idx".to_string() });
    assert_eq!(
        index_open_error(&missing, "/idx", None, None, true),
        "no knowledge index at /idx (set via --index-dir or RUST_KNOWLEDGE_INDEX_DIR). Build one with `rust-knowledge index --index-dir /idx` from inside the workspace, or point the flag at an existing index."
    );
    assert_eq!(
        index_open_error(&missing, "/ws/.rust-knowledge", Some("/ws"), Some("/ws/Cargo.toml"), false),
        "no knowledge index for workspace /ws: expected index directory /ws/.rust-knowledge. Build it first with `rust-knowledge index --manifest-path /ws/Cargo.toml`, then restart this MCP server (or point --index-dir / RUST_KNOWLEDGE_INDEX_DIR at an existing index)."
    );
    assert!(index_open_error(&missing, "/i", None, None, false)
        .starts_with("no knowledge index for workspace <unknown>: expected index directory /i. Build it first with `rust-knowledge index`,"));
}

#[test]
fn other_open_failures_pass_through() {
    let other = IndexError::Engine("disk on fire".to_string());
    assert_eq!(
        index_open_error(&other, "/idx", None, None, false),
        "failed to open the knowledge index at /idx: disk on fire"
    );
    assert_eq!(index_dir_source(true), "explicit (--index-dir or RUST_KNOWLEDGE_INDEX_DIR)");
    assert_eq!(index_dir_source(false), "workspace default (<workspace>/.rust-knowledge)");
}

#[test]
fn index_error_messages_match_their_variants() {
    let e = IndexError::RustdocFormatVersion {
        package: "p@1".to_string(),
        got: 57,
        expected: 61,
        artifact: "/a.json".to_string(),
    };
    assert_eq!(
        e.message(),
        "failed to parse rustdoc JSON for p@1: format version 57 is incompatible with the parser (rustdoc-types supports 61); artifact: /a.json"
    );
    let e = IndexError::PackageNotFound { spec: "nope".to_string() };
    assert_eq!(e.message(), "package not found in the resolved universe: nope");
}
