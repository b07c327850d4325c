//! Typed errors for retrieval and indexing operations.
use vstd::prelude::*;

use crate::id::DocumentId;
use crate::text::{decimal, push_decimal, push_str};

verus! {

/// Errors of retrieval operations.
#[derive(Debug)]
pub enum KnowledgeError {
    /// No index exists at `path`.
    NoIndex { path: String },
    /// The index at `path` was built with another schema version.
    SchemaVersion { path: String, index: u32, supported: u32 },
    /// No document carries the id.
    DocumentNotFound(DocumentId),
    /// Engine-specific failure; the context string must be enough to
    /// diagnose the underlying cause.
    Engine(String),
}

/// The message each error is reported with.
pub open spec fn knowledge_error_message(e: KnowledgeError) -> Seq<char> {
    match e {
        KnowledgeError::NoIndex { path } => "no knowledge index at "@ + path@
            + "; run `rust-knowledge index` first"@,
        KnowledgeError::SchemaVersion { path, index, supported } => "index at "@ + path@
            + " was built with schema version "@ + decimal(index as nat)
            + ", but this binary supports "@ + decimal(supported as nat) + "; rebuild the index"@,
        KnowledgeError::DocumentNotFound(id) => "no document with id "@ + id@,
        KnowledgeError::Engine(context) => "search engine failure: "@ + context@,
    }
}

impl KnowledgeError {
    /// An engine failure carrying `context` (the rendered cause).
    pub fn engine(context: String) -> (r: KnowledgeError)
        ensures
            r == KnowledgeError::Engine(context),
    {
        KnowledgeError::Engine(context)
    }

    /// The human-readable message of this error.
    pub fn message(&self) -> (r: String)
        ensures
            r@ == knowledge_error_message(*self),
    {
        let mut out = String::new();
        match self {
            KnowledgeError::NoIndex { path } => {
                push_str(&mut out, "no knowledge index at ");
                push_str(&mut out, path.as_str());
                push_str(&mut out, "; run `rust-knowledge index` first");
            },
            KnowledgeError::SchemaVersion { path, index, supported } => {
                push_str(&mut out, "index at ");
                push_str(&mut out, path.as_str());
                push_str(&mut out, " was built with schema version ");
                push_decimal(&mut out, *index as u64);
                push_str(&mut out, ", but this binary supports ");
                push_decimal(&mut out, *supported as u64);
                push_str(&mut out, "; rebuild the index");
            },
            KnowledgeError::DocumentNotFound(id) => {
                push_str(&mut out, "no document with id ");
                push_str(&mut out, id.as_str());
            },
            KnowledgeError::Engine(context) => {
                push_str(&mut out, "search engine failure: ");
                push_str(&mut out, context.as_str());
            },
        }
        out
    }
}

/// Errors of the indexing engine, with enough context to diagnose them:
/// which package, which command, which path, which rustdoc format version.
/// Causes from outside libraries are carried as their rendered messages.
#[derive(Debug)]
pub enum IndexError {
    CargoMetadata { message: String },
    PackageNotFound { spec: String },
    RustdocSpawn { command: String, cause: String },
    RustdocFailed { spec: String, reason: String },
    RustdocFormatVersion { package: String, got: u32, expected: u32, artifact: String },
    RustdocParse { package: String, got: u32, expected: u32, artifact: String, cause: String },
    Io { path: String, message: String },
    MetaCorrupt { path: String, message: String },
    Knowledge(KnowledgeError),
    Engine(String),
}

impl IndexError {
    /// A read or write failure of `path`.
    pub fn io(path: String, message: String) -> (r: IndexError)
        ensures
            r == (IndexError::Io { path, message }),
    {
        IndexError::Io { path, message }
    }

    /// A cargo metadata failure with its rendered cause.
    pub fn cargo_metadata(message: String) -> (r: IndexError)
        ensures
            r == (IndexError::CargoMetadata { message }),
    {
        IndexError::CargoMetadata { message }
    }
}

/// The message each indexing error is reported with.
pub open spec fn index_error_message(e: IndexError) -> Seq<char> {
    match e {
        IndexError::CargoMetadata { message } => "cargo metadata failed: "@ + message@,
        IndexError::PackageNotFound { spec } => "package not found in the resolved universe: "@
            + spec@,
        IndexError::RustdocSpawn { command, cause } =>
            "failed to spawn cargo for rustdoc generation ("@ + command@ + "): "@ + cause@,
        IndexError::RustdocFailed { spec, reason } => "rustdoc generation failed for "@ + spec@
            + ": "@ + reason@,
        IndexError::RustdocFormatVersion { package, got, expected, artifact } =>
            "failed to parse rustdoc JSON for "@ + package@ + ": format version "@ + decimal(
            got as nat,
        ) + " is incompatible with the parser (rustdoc-types supports "@ + decimal(expected as nat)
            + "); artifact: "@ + artifact@,
        IndexError::RustdocParse { package, got, expected, artifact, cause } =>
            "failed to parse rustdoc JSON for "@ + package@ + " (format version "@ + decimal(
            got as nat,
        ) + ", parser supports "@ + decimal(expected as nat) + "); artifact: "@ + artifact@
            + "; cause: "@ + cause@,
        IndexError::Io { path, message } => "failed to read "@ + path@ + ": "@ + message@,
        IndexError::MetaCorrupt { path, message } => "index metadata at "@ + path@
            + " is corrupt: "@ + message@,
        IndexError::Knowledge(k) => knowledge_error_message(k),
        IndexError::Engine(message) => message@,
    }
}

impl IndexError {
    /// The human-readable message of this error.
    pub fn message(&self) -> (r: String)
        ensures
            r@ == index_error_message(*self),
    {
        let mut out = String::new();
        match self {
            IndexError::CargoMetadata { message } => {
                push_str(&mut out, "cargo metadata failed: ");
                push_str(&mut out, message.as_str());
            },
            IndexError::PackageNotFound { spec } => {
                push_str(&mut out, "package not found in the resolved universe: ");
                push_str(&mut out, spec.as_str());
            },
            IndexError::RustdocSpawn { command, cause } => {
                push_str(&mut out, "failed to spawn cargo for rustdoc generation (");
                push_str(&mut out, command.as_str());
                push_str(&mut out, "): ");
                push_str(&mut out, cause.as_str());
            },
            IndexError::RustdocFailed { spec, reason } => {
                push_str(&mut out, "rustdoc generation failed for ");
                push_str(&mut out, spec.as_str());
                push_str(&mut out, ": ");
                push_str(&mut out, reason.as_str());
            },
            IndexError::RustdocFormatVersion { package, got, expected, artifact } => {
                push_str(&mut out, "failed to parse rustdoc JSON for ");
                push_str(&mut out, package.as_str());
                push_str(&mut out, ": format version ");
                push_decimal(&mut out, *got as u64);
                push_str(&mut out, " is incompatible with the parser (rustdoc-types supports ");
                push_decimal(&mut out, *expected as u64);
                push_str(&mut out, "); artifact: ");
                push_str(&mut out, artifact.as_str());
            },
            IndexError::RustdocParse { package, got, expected, artifact, cause } => {
                push_str(&mut out, "failed to parse rustdoc JSON for ");
                push_str(&mut out, package.as_str());
                push_str(&mut out, " (format version ");
                push_decimal(&mut out, *got as u64);
                push_str(&mut out, ", parser supports ");
                push_decimal(&mut out, *expected as u64);
                push_str(&mut out, "); artifact: ");
                push_str(&mut out, artifact.as_str());
                push_str(&mut out, "; cause: ");
                push_str(&mut out, cause.as_str());
            },
            IndexError::Io { path, message } => {
                push_str(&mut out, "failed to read ");
                push_str(&mut out, path.as_str());
                push_str(&mut out, ": ");
                push_str(&mut out, message.as_str());
            },
            IndexError::MetaCorrupt { path, message } => {
                push_str(&mut out, "index metadata at ");
                push_str(&mut out, path.as_str());
                push_str(&mut out, " is corrupt: ");
                push_str(&mut out, message.as_str());
            },
            IndexError::Knowledge(k) => {
                let m = k.message();
                push_str(&mut out, m.as_str());
            },
            IndexError::Engine(message) => {
                push_str(&mut out, message.as_str());
            },
        }
        out
    }
}

} // verus!
