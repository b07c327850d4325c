//! Search requests and compact structured results.
use vstd::prelude::*;

use crate::id::DocumentId;
use crate::model::{SourceKind, SourceSpan};

verus! {

/// A lexical knowledge search. Empty filter vectors mean "no restriction".
///
/// `text` is free-form natural language or identifiers; no query syntax is
/// exposed.
#[derive(Clone, Debug)]
pub struct SearchQuery {
    pub text: String,
    pub packages: Vec<String>,
    pub source_kinds: Vec<SourceKind>,
    pub item_kinds: Vec<String>,
    pub limit: usize,
}

impl SearchQuery {
    /// A query for `text` with no filters and room for 8 results.
    pub fn new(text: String) -> (r: SearchQuery)
        ensures
            r.text == text,
            r.packages@.len() == 0,
            r.source_kinds@.len() == 0,
            r.item_kinds@.len() == 0,
            r.limit == 8,
    {
        SearchQuery {
            text,
            packages: Vec::new(),
            source_kinds: Vec::new(),
            item_kinds: Vec::new(),
            limit: 8,
        }
    }
}

/// Near-exact symbol lookup request.
#[derive(Clone, Debug)]
pub struct SymbolQuery {
    /// Symbol path or last segment, e.g. `tokio::task::spawn_blocking` or
    /// `spawn_blocking`.
    pub symbol: String,
    pub packages: Vec<String>,
    pub limit: usize,
}

impl SymbolQuery {
    /// A lookup of `symbol` in every package, with room for 5 results.
    pub fn new(symbol: String) -> (r: SymbolQuery)
        ensures
            r.symbol == symbol,
            r.packages@.len() == 0,
            r.limit == 5,
    {
        SymbolQuery { symbol, packages: Vec::new(), limit: 5 }
    }
}

/// Compact structured API information returned by symbol lookup.
#[derive(Clone, Debug, PartialEq)]
pub struct SymbolInfo {
    pub id: DocumentId,
    pub package_name: String,
    pub package_version: String,
    pub kind: String,
    pub symbol_path: String,
    pub signature: Option<String>,
    /// Short doc snippet (first paragraph-ish), not the whole docs.
    pub snippet: String,
    pub source_path: Option<String>,
    pub source_span: Option<SourceSpan>,
    pub related_symbols: Vec<String>,
}

/// What ranking logic reads of a search hit: its package and the fields
/// its display context is built from.
#[derive(Clone, Debug, PartialEq)]
pub struct RankedHit {
    pub package_name: String,
    pub package_version: String,
    pub title: String,
    pub symbol_path: Option<String>,
    pub section_path: Vec<String>,
}

} // verus!
