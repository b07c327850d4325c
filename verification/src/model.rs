//! The normalized corpus model.
//!
//! Every retrievable artifact is a [`KnowledgeDocument`] with full
//! provenance: which package (exact Cargo identity, not just crate name),
//! which source kind, where it came from on disk, and, for Rust symbols,
//! the qualified path and source span. Paths are held as strings.
use vstd::prelude::*;

use crate::id::DocumentId;
use crate::paths::{parent, path_parent};
use crate::text::{
    join, join_strings, opt_string_view, push_str, starts_with, str_eq, str_starts_with,
};

verus! {

/// Where a document came from.
#[derive(Clone, Copy, Debug, PartialEq, Eq, Hash, Structural)]
pub enum SourceKind {
    /// A documented rustdoc item (struct, fn, trait, method, ...).
    RustdocItem,
    /// A rustdoc module (including the crate root, i.e. `//!` docs).
    RustdocModule,
    /// A package README.
    CrateReadme,
    /// A Markdown document under the package (e.g. `docs/*.md`).
    MarkdownDocument,
}

/// The stable name of a source kind.
pub open spec fn source_kind_name(k: SourceKind) -> Seq<char> {
    match k {
        SourceKind::RustdocItem => "rustdoc_item"@,
        SourceKind::RustdocModule => "rustdoc_module"@,
        SourceKind::CrateReadme => "crate_readme"@,
        SourceKind::MarkdownDocument => "markdown_document"@,
    }
}

/// The message `SourceKind::from_str` rejects a name with; `quoted` is the
/// name as `{:?}` prints it.
pub open spec fn unknown_kind_message(quoted: Seq<char>) -> Seq<char> {
    "unknown source kind: "@ + quoted
        + " (use one of rustdoc_item, rustdoc_module, crate_readme, markdown_document)"@
}

/// How `{:?}` prints a string slice.
pub uninterp spec fn debug_str(s: Seq<char>) -> Seq<char>;

/// `format!("{s:?}")`: the string quoted and escaped the way `Debug` prints it.
#[verifier::external_body]
pub(crate) fn debug_quoted(s: &str) -> (r: String)
    ensures
        r@ == debug_str(s@),
{
    format!("{s:?}")
}

impl SourceKind {
    /// The stable name of this kind (`rustdoc_item`, ...).
    pub fn as_str(&self) -> (r: &'static str)
        ensures
            r@ == source_kind_name(*self),
    {
        match self {
            SourceKind::RustdocItem => "rustdoc_item",
            SourceKind::RustdocModule => "rustdoc_module",
            SourceKind::CrateReadme => "crate_readme",
            SourceKind::MarkdownDocument => "markdown_document",
        }
    }

    /// True for documents derived from rustdoc JSON.
    pub fn is_rustdoc(&self) -> (r: bool)
        ensures
            r == (*self == SourceKind::RustdocItem || *self == SourceKind::RustdocModule),
    {
        matches!(self, SourceKind::RustdocItem | SourceKind::RustdocModule)
    }

    /// Parses a kind from its stable name; any other text is rejected with
    /// a message naming the accepted ones.
    pub fn from_str(s: &str) -> (r: Result<SourceKind, String>)
        ensures
            match r {
                Ok(k) => source_kind_name(k) == s@,
                Err(msg) => (forall|k: SourceKind| source_kind_name(k) != s@) && msg@
                    == unknown_kind_message(debug_str(s@)),
            },
    {
        let kinds = [
            SourceKind::RustdocItem,
            SourceKind::RustdocModule,
            SourceKind::CrateReadme,
            SourceKind::MarkdownDocument,
        ];
        let mut i: usize = 0;
        while i < 4
            invariant
                i <= 4,
                kinds@ == seq![
                    SourceKind::RustdocItem,
                    SourceKind::RustdocModule,
                    SourceKind::CrateReadme,
                    SourceKind::MarkdownDocument,
                ],
                forall|j: int| 0 <= j < i ==> source_kind_name(#[trigger] kinds@[j]) != s@,
            decreases 4 - i,
        {
            if str_eq(kinds[i].as_str(), s) {
                return Ok(kinds[i]);
            }
            i = i + 1;
        }
        assert forall|k: SourceKind| source_kind_name(k) != s@ by {
            match k {
                SourceKind::RustdocItem => assert(kinds@[0] == k),
                SourceKind::RustdocModule => assert(kinds@[1] == k),
                SourceKind::CrateReadme => assert(kinds@[2] == k),
                SourceKind::MarkdownDocument => assert(kinds@[3] == k),
            }
        }
        let mut msg = String::new();
        push_str(&mut msg, "unknown source kind: ");
        let quoted = debug_quoted(s);
        push_str(&mut msg, quoted.as_str());
        push_str(
            &mut msg,
            " (use one of rustdoc_item, rustdoc_module, crate_readme, markdown_document)",
        );
        Err(msg)
    }
}

/// A 1-based line/column range in a source file.
#[derive(Clone, Copy, Debug, PartialEq, Eq)]
pub struct SourceSpan {
    pub start_line: u32,
    pub start_col: u32,
    pub end_line: u32,
    pub end_col: u32,
}

/// Exact identity of a resolved Cargo package.
///
/// Keyed by Cargo's opaque package id, so two versions of the same crate in
/// one graph are two distinct identities. `source` is Cargo's source repr
/// (`registry+...`, `git+...`); `None` means the package is local.
#[derive(Clone, Debug, PartialEq, Eq, Hash)]
pub struct PackageIdentity {
    pub package_id: String,
    pub name: String,
    pub version: String,
    pub source: Option<String>,
    pub manifest_path: String,
}

/// The short source label of an optional source repr.
pub open spec fn source_label_spec(source: Option<Seq<char>>) -> Seq<char> {
    match source {
        None => "local"@,
        Some(repr) => if starts_with(repr, "registry+"@) {
            "registry"@
        } else if starts_with(repr, "git+"@) {
            "git"@
        } else {
            "source"@
        },
    }
}

/// `name@version`.
pub open spec fn display_spec(name: Seq<char>, version: Seq<char>) -> Seq<char> {
    name + "@"@ + version
}

impl PackageIdentity {
    /// Package root directory: the manifest's parent, or `.` when the
    /// manifest path has none.
    pub fn root(&self) -> (r: String)
        ensures
            r@ == match path_parent(self.manifest_path@) {
                Some(dir) => dir,
                None => "."@,
            },
    {
        match parent(self.manifest_path.as_str()) {
            Some(dir) => dir,
            None => ".".to_owned(),
        }
    }

    /// Short human-readable source label ("local", "registry", "git", or
    /// "source" for any other source kind).
    pub fn source_label(&self) -> (r: &'static str)
        ensures
            r@ == source_label_spec(opt_string_view(self.source)),
    {
        match &self.source {
            None => "local",
            Some(repr) => {
                if str_starts_with(repr.as_str(), "registry+") {
                    "registry"
                } else if str_starts_with(repr.as_str(), "git+") {
                    "git"
                } else {
                    "source"
                }
            },
        }
    }

    /// `name@version`.
    pub fn display(&self) -> (r: String)
        ensures
            r@ == display_spec(self.name@, self.version@),
    {
        let mut out = self.name.clone();
        push_str(&mut out, "@");
        push_str(&mut out, self.version.as_str());
        out
    }
}

/// One normalized, retrievable piece of documentation with provenance.
#[derive(Clone, Debug, PartialEq)]
pub struct KnowledgeDocument {
    /// Stable, deterministic identifier.
    pub id: DocumentId,
    /// Exact package identity this document came from.
    pub package: PackageIdentity,
    pub source_kind: SourceKind,
    /// Display title: symbol name, heading, or file title.
    pub title: String,
    /// Fully qualified Rust symbol path, e.g. `tokio::task::spawn_blocking`.
    pub symbol_path: Option<String>,
    /// Rust item kind ("function", "struct", "trait", ...), when applicable.
    pub item_kind: Option<String>,
    /// Markdown heading ancestry (for Markdown-derived documents).
    pub section_path: Vec<String>,
    /// Full text of this chunk.
    pub text: String,
    /// File this document came from, when known.
    pub source_path: Option<String>,
    /// Span in `source_path`, when known (rustdoc items).
    pub source_span: Option<SourceSpan>,
    /// Related symbols (e.g. resolved intra-doc link targets).
    pub related_symbols: Vec<String>,
    /// Concise API signature, when applicable.
    pub signature: Option<String>,
}

/// The views of a vector of strings.
pub open spec fn views(v: Seq<String>) -> Seq<Seq<char>> {
    v.map_values(|s: String| s@)
}

/// The display context of a document or hit: its symbol path, else its
/// heading ancestry joined by ` > `, else its title.
pub open spec fn context_spec(
    symbol_path: Option<Seq<char>>,
    section_path: Seq<Seq<char>>,
    title: Seq<char>,
) -> Seq<char> {
    match symbol_path {
        Some(symbol) => symbol,
        None => if section_path.len() > 0 {
            join(section_path, " > "@)
        } else {
            title
        },
    }
}

/// `display [kind / item]` or `display [kind]`.
pub open spec fn provenance_spec(
    display: Seq<char>,
    kind: SourceKind,
    item_kind: Option<Seq<char>>,
) -> Seq<char> {
    match item_kind {
        Some(item) => display + " ["@ + source_kind_name(kind) + " / "@ + item + "]"@,
        None => display + " ["@ + source_kind_name(kind) + "]"@,
    }
}

/// The context of a symbol path, a heading ancestry and a title.
pub fn context_of(symbol_path: &Option<String>, section_path: &Vec<String>, title: &String) -> (r:
    String)
    ensures
        r@ == context_spec(opt_string_view(*symbol_path), views(section_path@), title@),
{
    if let Some(symbol) = symbol_path {
        symbol.clone()
    } else if section_path.len() > 0 {
        join_strings(section_path, " > ")
    } else {
        title.clone()
    }
}

impl KnowledgeDocument {
    /// Heading/symbol context for compact display, e.g.
    /// `Runtime > CPU-bound work` or `tokio::task::spawn_blocking`.
    pub fn context(&self) -> (r: String)
        ensures
            r@ == context_spec(
                opt_string_view(self.symbol_path),
                views(self.section_path@),
                self.title@,
            ),
    {
        context_of(&self.symbol_path, &self.section_path, &self.title)
    }

    /// Short provenance label, e.g. `tokio@1.40 [rustdoc_item / function]`.
    pub fn provenance(&self) -> (r: String)
        ensures
            r@ == provenance_spec(
                display_spec(self.package.name@, self.package.version@),
                self.source_kind,
                opt_string_view(self.item_kind),
            ),
    {
        let mut out = self.package.display();
        push_str(&mut out, " [");
        push_str(&mut out, self.source_kind.as_str());
        match &self.item_kind {
            Some(kind) => {
                push_str(&mut out, " / ");
                push_str(&mut out, kind.as_str());
                push_str(&mut out, "]");
            },
            None => {
                push_str(&mut out, "]");
            },
        }
        out
    }
}

} // verus!
