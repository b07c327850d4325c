//! Normalizing a parsed rustdoc crate into knowledge documents.
//!
//! The walk starts at the crate root module and keeps the fully qualified
//! path of every public item. Item documentation stays attached to its
//! symbol; crate-level and module docs become module documents.
//! Compiler-generated impls and impls of foreign traits are skipped; trait
//! items and the methods of local-trait impls are kept.
//!
//! The walk is stated as a spec function over a [`WalkState`] (the local
//! symbol paths seen so far and the documents emitted so far); the
//! executable walker is proved to follow it step by step. Each step of the
//! walk moves to another item, so a depth bound of the number of items
//! reaches every item of an acyclic crate.
use vstd::prelude::*;

use crate::error::IndexError;
use crate::id::{id_of_parts, DocumentId};
use crate::model::{
    display_spec, source_kind_name, KnowledgeDocument, PackageIdentity, SourceKind, SourceSpan,
};
use crate::paths::{join, join_path};
use crate::rustdoc::render::{function_text, render_function, render_type, type_text};
use crate::rustdoc::types::{DocCrate, Function, Impl, Item, ItemEnum, MacroKind, Span, Type, Visibility};
use crate::text::{
    decimal, decimal_string, join as join_text, join_strings, opt_string_view, push_str,
    replace_char, replace_char_str, str_eq, strings_view, to_owned, trim, trim_str,
};

verus! {

/// Result of normalizing one rustdoc artifact.
pub struct RustdocNormalized {
    pub format_version: u32,
    pub documents: Vec<KnowledgeDocument>,
    pub warnings: Vec<String>,
}

/// Where an item sits, which decides whether private items count.
#[derive(Clone, Copy, PartialEq, Eq, Structural)]
pub enum Context {
    /// Module tree: only public items count.
    Module,
    /// Inside a trait declaration: its items are API whatever their
    /// visibility says.
    Trait,
    /// Inside an impl of a local trait: as trait items.
    LocalImpl,
    /// The crate root module itself.
    Root,
}

/// The plain values of a package identity.
pub open spec fn package_view(p: PackageIdentity) -> (
    Seq<char>,
    Seq<char>,
    Seq<char>,
    Option<Seq<char>>,
    Seq<char>,
) {
    (p.package_id@, p.name@, p.version@, opt_string_view(p.source), p.manifest_path@)
}

/// The plain values of a knowledge document.
#[verifier::ext_equal]
pub struct DocView {
    pub id: Seq<char>,
    pub package: (Seq<char>, Seq<char>, Seq<char>, Option<Seq<char>>, Seq<char>),
    pub source_kind: SourceKind,
    pub title: Seq<char>,
    pub symbol_path: Option<Seq<char>>,
    pub item_kind: Option<Seq<char>>,
    pub section_path: Seq<Seq<char>>,
    pub text: Seq<char>,
    pub source_path: Option<Seq<char>>,
    pub source_span: Option<SourceSpan>,
    pub related_symbols: Seq<Seq<char>>,
    pub signature: Option<Seq<char>>,
}

/// The view of a knowledge document.
pub open spec fn doc_view(d: KnowledgeDocument) -> DocView {
    DocView {
        id: d.id@,
        package: package_view(d.package),
        source_kind: d.source_kind,
        title: d.title@,
        symbol_path: opt_string_view(d.symbol_path),
        item_kind: opt_string_view(d.item_kind),
        section_path: strings_view(d.section_path@),
        text: d.text@,
        source_path: opt_string_view(d.source_path),
        source_span: d.source_span,
        related_symbols: strings_view(d.related_symbols@),
        signature: opt_string_view(d.signature),
    }
}

/// The views of a sequence of documents.
pub open spec fn doc_views(docs: Seq<KnowledgeDocument>) -> Seq<DocView> {
    docs.map_values(|d: KnowledgeDocument| doc_view(d))
}

/// What the walk has built so far: the qualified path recorded for each
/// local type or trait (a later record for an id overrides an earlier
/// one), and the documents emitted.
#[verifier::ext_equal]
pub struct WalkState {
    pub paths: Seq<(u32, Seq<char>)>,
    pub docs: Seq<DocView>,
}

/// The walk before any step.
pub open spec fn empty_state() -> WalkState {
    WalkState { paths: Seq::empty(), docs: Seq::empty() }
}

/// The position of the first item with id `id`.
pub open spec fn item_position(index: Seq<Item>, id: u32) -> Option<int>
    decreases index.len(),
{
    if index.len() == 0 {
        None
    } else {
        match item_position(index.drop_last(), id) {
            Some(i) => Some(i),
            None => if index.last().id == id {
                Some(index.len() - 1)
            } else {
                None
            },
        }
    }
}

/// The item with id `id`.
pub open spec fn item_at(k: DocCrate, id: u32) -> Option<Item> {
    match item_position(k.index@, id) {
        Some(i) => Some(k.index@[i]),
        None => None,
    }
}

/// The name of the item with id `id`.
pub open spec fn item_name(k: DocCrate, id: u32) -> Option<Seq<char>> {
    match item_at(k, id) {
        Some(item) => opt_string_view(item.name),
        None => None,
    }
}

/// The path last recorded for `id`.
pub open spec fn lookup_path(paths: Seq<(u32, Seq<char>)>, id: u32) -> Option<Seq<char>>
    decreases paths.len(),
{
    if paths.len() == 0 {
        None
    } else if paths.last().0 == id {
        Some(paths.last().1)
    } else {
        lookup_path(paths.drop_last(), id)
    }
}

/// The position of the first path summary for `id`.
pub open spec fn summary_position(paths: Seq<(u32, Vec<String>)>, id: u32) -> Option<int>
    decreases paths.len(),
{
    if paths.len() == 0 {
        None
    } else {
        match summary_position(paths.drop_last(), id) {
            Some(i) => Some(i),
            None => if paths.last().0 == id {
                Some(paths.len() - 1)
            } else {
                None
            },
        }
    }
}

/// The qualified path of an item: the local path recorded by the walk,
/// else the crate's path summary joined by `::`.
pub open spec fn symbol_path_of(k: DocCrate, local: Seq<(u32, Seq<char>)>, id: u32) -> Option<
    Seq<char>,
> {
    match lookup_path(local, id) {
        Some(p) => Some(p),
        None => match summary_position(k.paths@, id) {
            Some(j) => Some(join_text(strings_view(k.paths@[j].1@), "::"@)),
            None => None,
        },
    }
}

/// The related symbols collected from the link targets `links`, after
/// `out`: each resolvable target other than `self_path`, once, until there
/// are eight.
pub open spec fn related_from(
    k: DocCrate,
    local: Seq<(u32, Seq<char>)>,
    links: Seq<u32>,
    self_path: Seq<char>,
    out: Seq<Seq<char>>,
) -> Seq<Seq<char>>
    decreases links.len(),
{
    if links.len() == 0 {
        out
    } else {
        let next = match symbol_path_of(k, local, links[0]) {
            Some(p) => if p != self_path && !out.contains(p) {
                out.push(p)
            } else {
                out
            },
            None => out,
        };
        if next.len() >= 8 {
            next
        } else {
            related_from(k, local, links.drop_first(), self_path, next)
        }
    }
}

/// The file of a span, resolved against the workspace root.
pub open spec fn span_path(span: Option<Span>, root: Seq<char>) -> Option<Seq<char>> {
    match span {
        Some(s) => Some(join(root, s.filename@)),
        None => None,
    }
}

/// The line/column range of a span.
pub open spec fn span_range(span: Option<Span>) -> Option<SourceSpan> {
    match span {
        Some(s) => Some(
            SourceSpan {
                start_line: s.begin.0 as u32,
                start_col: s.begin.1 as u32,
                end_line: s.end.0 as u32,
                end_col: s.end.1 as u32,
            },
        ),
        None => None,
    }
}

/// The documentation text of an item (empty when it has none).
pub open spec fn docs_text(item: Item) -> Seq<char> {
    match item.docs {
        Some(t) => t@,
        None => ""@,
    }
}

/// The title of an item: its name, else its path.
pub open spec fn title_of(item: Item, path: Seq<char>) -> Seq<char> {
    match item.name {
        Some(n) => n@,
        None => path,
    }
}

/// Whether an item is public.
pub open spec fn is_public(item: Item) -> bool {
    item.visibility == Visibility::Public
}

/// The walk after emitting one document for `item` at `path`.
pub open spec fn pushed(
    k: DocCrate,
    p: PackageIdentity,
    root: Seq<char>,
    st: WalkState,
    item: Item,
    path: Seq<char>,
    kind: SourceKind,
    title: Seq<char>,
    item_kind: Option<Seq<char>>,
    signature: Option<Seq<char>>,
) -> WalkState {
    WalkState {
        paths: st.paths,
        docs: st.docs.push(
            DocView {
                id: id_of_parts(seq![p.package_id@, source_kind_name(kind), path, ""@, ""@]),
                package: package_view(p),
                source_kind: kind,
                title,
                symbol_path: Some(path),
                item_kind,
                section_path: Seq::empty(),
                text: docs_text(item),
                source_path: span_path(item.span, root),
                source_span: span_range(item.span),
                related_symbols: related_from(k, st.paths, item.links@, path, Seq::empty()),
                signature,
            },
        ),
    }
}

/// A module emits a document when its docs are not blank.
pub open spec fn emit_module(
    k: DocCrate,
    p: PackageIdentity,
    root: Seq<char>,
    st: WalkState,
    item: Item,
    path: Seq<char>,
) -> WalkState {
    if trim(docs_text(item)).len() == 0 {
        st
    } else {
        let title = match item.name {
            Some(n) => n@,
            None => p.name@,
        };
        pushed(k, p, root, st, item, path, SourceKind::RustdocModule, title, None, None)
    }
}

/// Another item emits a document of kind `kind`, unless it is a private
/// item of the module tree.
pub open spec fn emit_item(
    k: DocCrate,
    p: PackageIdentity,
    root: Seq<char>,
    st: WalkState,
    item: Item,
    path: Seq<char>,
    kind: Seq<char>,
    ctx: Context,
) -> WalkState {
    if !is_public(item) && ctx == Context::Module {
        st
    } else {
        pushed(
            k,
            p,
            root,
            st,
            item,
            path,
            SourceKind::RustdocItem,
            title_of(item, path),
            Some(kind),
            None,
        )
    }
}

/// A function emits a document with its rendered signature.
pub open spec fn emit_function(
    k: DocCrate,
    p: PackageIdentity,
    root: Seq<char>,
    st: WalkState,
    item: Item,
    path: Seq<char>,
    f: Function,
    ctx: Context,
) -> WalkState {
    if !is_public(item) && ctx == Context::Module {
        st
    } else {
        let title = title_of(item, path);
        let public = is_public(item) || ctx != Context::Module;
        pushed(
            k,
            p,
            root,
            st,
            item,
            path,
            SourceKind::RustdocItem,
            title,
            Some("function"@),
            Some(function_text(title, f, public)),
        )
    }
}

/// The walk after recording `path` for the local type or trait `id`.
pub open spec fn remember(st: WalkState, id: u32, path: Seq<char>) -> WalkState {
    WalkState { paths: st.paths.push((id, path)), docs: st.docs }
}

/// The item kind of a procedural macro.
pub open spec fn macro_kind_name(m: MacroKind) -> Seq<char> {
    match m {
        MacroKind::Bang => "macro"@,
        MacroKind::Attr => "attribute_macro"@,
        MacroKind::Derive => "derive_macro"@,
    }
}

/// The path under which an impl's items are found: the recorded path of
/// its local self type, else the rendered self type when it is not empty
/// and differs from the owner, else the owner's path.
pub open spec fn impl_parent(paths: Seq<(u32, Seq<char>)>, imp: Impl, owner: Seq<char>) -> Seq<
    char,
> {
    let rendered = type_text(imp.for_);
    let fallback = if rendered.len() != 0 && rendered != owner {
        rendered
    } else {
        owner
    };
    match imp.for_ {
        Type::ResolvedPath(tp) => match lookup_path(paths, tp.id) {
            Some(full) => full,
            None => fallback,
        },
        _ => fallback,
    }
}

/// The walk of the item `id` at `path`, with at most `fuel` further
/// steps.
pub open spec fn walk(
    k: DocCrate,
    p: PackageIdentity,
    root: Seq<char>,
    st: WalkState,
    id: u32,
    path: Seq<char>,
    ctx: Context,
    fuel: nat,
) -> WalkState
    decreases fuel, 0nat,
{
    if fuel == 0 {
        st
    } else {
        match item_at(k, id) {
            None => st,
            Some(item) => if item.crate_id != 0 {
                st
            } else {
                let f = (fuel - 1) as nat;
                match item.inner {
                    ItemEnum::Module { is_crate, items } => walk_children(
                        k,
                        p,
                        root,
                        emit_module(k, p, root, st, item, path),
                        items@,
                        path,
                        Context::Module,
                        f,
                    ),
                    ItemEnum::Struct { impls } => walk_impls(
                        k,
                        p,
                        root,
                        remember(emit_item(k, p, root, st, item, path, "struct"@, ctx), id, path),
                        impls@,
                        path,
                        f,
                    ),
                    ItemEnum::Enum { variants, impls } => walk_impls(
                        k,
                        p,
                        root,
                        walk_children(
                            k,
                            p,
                            root,
                            remember(emit_item(k, p, root, st, item, path, "enum"@, ctx), id, path),
                            variants@,
                            path,
                            Context::Module,
                            f,
                        ),
                        impls@,
                        path,
                        f,
                    ),
                    ItemEnum::Union { impls } => walk_impls(
                        k,
                        p,
                        root,
                        remember(emit_item(k, p, root, st, item, path, "union"@, ctx), id, path),
                        impls@,
                        path,
                        f,
                    ),
                    ItemEnum::Trait { items } => walk_children(
                        k,
                        p,
                        root,
                        remember(emit_item(k, p, root, st, item, path, "trait"@, ctx), id, path),
                        items@,
                        path,
                        Context::Trait,
                        f,
                    ),
                    ItemEnum::Function(func) => emit_function(k, p, root, st, item, path, func, ctx),
                    ItemEnum::TypeAlias => emit_item(k, p, root, st, item, path, "type_alias"@, ctx),
                    ItemEnum::Constant => emit_item(k, p, root, st, item, path, "constant"@, ctx),
                    ItemEnum::Static => emit_item(k, p, root, st, item, path, "static"@, ctx),
                    ItemEnum::Variant => emit_item(k, p, root, st, item, path, "variant"@, ctx),
                    ItemEnum::Macro => emit_item(k, p, root, st, item, path, "macro"@, ctx),
                    ItemEnum::ProcMacro(m) => emit_item(
                        k,
                        p,
                        root,
                        st,
                        item,
                        path,
                        macro_kind_name(m),
                        ctx,
                    ),
                    ItemEnum::Impl(_) => st,
                    ItemEnum::Other => st,
                }
            },
        }
    }
}

/// The walk of the named children `ids` of the item at `parent`.
pub open spec fn walk_children(
    k: DocCrate,
    p: PackageIdentity,
    root: Seq<char>,
    st: WalkState,
    ids: Seq<u32>,
    parent: Seq<char>,
    ctx: Context,
    fuel: nat,
) -> WalkState
    decreases fuel, ids.len() + 1,
{
    if ids.len() == 0 {
        st
    } else {
        let next = match item_name(k, ids[0]) {
            Some(name) => walk(k, p, root, st, ids[0], parent + "::"@ + name, ctx, fuel),
            None => st,
        };
        walk_children(k, p, root, next, ids.drop_first(), parent, ctx, fuel)
    }
}

/// The walk of the impl blocks `ids` of the type at `owner`.
pub open spec fn walk_impls(
    k: DocCrate,
    p: PackageIdentity,
    root: Seq<char>,
    st: WalkState,
    ids: Seq<u32>,
    owner: Seq<char>,
    fuel: nat,
) -> WalkState
    decreases fuel, ids.len() + 1,
{
    if ids.len() == 0 {
        st
    } else {
        walk_impls(
            k,
            p,
            root,
            walk_impl(k, p, root, st, ids[0], owner, fuel),
            ids.drop_first(),
            owner,
            fuel,
        )
    }
}

/// The walk of one impl block: skipped when it is compiler-generated or
/// implements a trait that is not local.
pub open spec fn walk_impl(
    k: DocCrate,
    p: PackageIdentity,
    root: Seq<char>,
    st: WalkState,
    id: u32,
    owner: Seq<char>,
    fuel: nat,
) -> WalkState
    decreases fuel, 0nat,
{
    if fuel == 0 {
        st
    } else {
        match item_at(k, id) {
            None => st,
            Some(item) => if item.crate_id != 0 {
                st
            } else {
                match item.inner {
                    ItemEnum::Impl(imp) => if imp.is_synthetic {
                        st
                    } else if (match imp.trait_ {
                        Some(t) => lookup_path(st.paths, t.id) is None,
                        None => false,
                    }) {
                        st
                    } else {
                        walk_children(
                            k,
                            p,
                            root,
                            st,
                            imp.items@,
                            impl_parent(st.paths, imp, owner),
                            Context::LocalImpl,
                            (fuel - 1) as nat,
                        )
                    },
                    _ => st,
                }
            },
        }
    }
}

/// The symbol-path prefix of a package: its name with `-` as `_`.
pub open spec fn crate_name(name: Seq<char>) -> Seq<char> {
    replace_char(name, '-', "_"@)
}

/// The walk of a whole crate, from its root module.
pub open spec fn walk_crate(k: DocCrate, p: PackageIdentity, root: Seq<char>) -> WalkState {
    walk(k, p, root, empty_state(), k.root, crate_name(p.name@), Context::Root, k.index@.len())
}

/// The warning given when the artifact's format version is not the one
/// the parser was built for.
pub open spec fn version_warning(display: Seq<char>, got: u32, expected: u32) -> Seq<char> {
    "rustdoc JSON for "@ + display + " has format_version "@ + decimal(got as nat)
        + ", parser supports "@ + decimal(expected as nat)
        + ";              parsing succeeded, but results may be inaccurate"@
}

/// The warnings of a normalization.
pub open spec fn warnings_for(p: PackageIdentity, got: u32, expected: u32) -> Seq<Seq<char>> {
    if got != expected {
        seq![version_warning(display_spec(p.name@, p.version@), got, expected)]
    } else {
        Seq::empty()
    }
}

/// The error for an artifact that did not parse: when its format version
/// differs from the parser's, the mismatch is the likely cause and is named.
pub fn parse_failure(
    package: String,
    got: u32,
    expected: u32,
    artifact: String,
    cause: String,
) -> (r: IndexError)
    ensures
        r == if got != expected {
            IndexError::RustdocFormatVersion { package, got, expected, artifact }
        } else {
            IndexError::RustdocParse { package, got, expected, artifact, cause }
        },
{
    if got != expected {
        IndexError::RustdocFormatVersion { package, got, expected, artifact }
    } else {
        IndexError::RustdocParse { package, got, expected, artifact, cause }
    }
}

proof fn lemma_item_position_prefix(s: Seq<Item>, id: u32, n: int)
    requires
        0 <= n <= s.len(),
        item_position(s.take(n), id) is Some,
    ensures
        item_position(s, id) == item_position(s.take(n), id),
    decreases s.len(),
{
    if n == s.len() {
        assert(s.take(n) =~= s);
    } else {
        assert(s.drop_last().take(n) =~= s.take(n));
        lemma_item_position_prefix(s.drop_last(), id, n);
    }
}

proof fn lemma_summary_position_prefix(s: Seq<(u32, Vec<String>)>, id: u32, n: int)
    requires
        0 <= n <= s.len(),
        summary_position(s.take(n), id) is Some,
    ensures
        summary_position(s, id) == summary_position(s.take(n), id),
    decreases s.len(),
{
    if n == s.len() {
        assert(s.take(n) =~= s);
    } else {
        assert(s.drop_last().take(n) =~= s.take(n));
        lemma_summary_position_prefix(s.drop_last(), id, n);
    }
}

/// The position of the first item with id `id`.
fn position_of(index: &Vec<Item>, id: u32) -> (r: Option<usize>)
    ensures
        match r {
            Some(i) => i < index@.len() && item_position(index@, id) == Some(i as int),
            None => item_position(index@, id) is None,
        },
{
    let mut i: usize = 0;
    while i < index.len()
        invariant
            i <= index@.len(),
            item_position(index@.take(i as int), id) is None,
        decreases index@.len() - i,
    {
        assert(index@.take(i + 1).drop_last() =~= index@.take(i as int));
        if index[i].id == id {
            proof {
                lemma_item_position_prefix(index@, id, i + 1);
            }
            return Some(i);
        }
        i = i + 1;
    }
    assert(index@.take(i as int) =~= index@);
    None
}

/// The position of the first path summary for `id`.
fn summary_of(paths: &Vec<(u32, Vec<String>)>, id: u32) -> (r: Option<usize>)
    ensures
        match r {
            Some(i) => i < paths@.len() && summary_position(paths@, id) == Some(i as int),
            None => summary_position(paths@, id) is None,
        },
{
    let mut i: usize = 0;
    while i < paths.len()
        invariant
            i <= paths@.len(),
            summary_position(paths@.take(i as int), id) is None,
        decreases paths@.len() - i,
    {
        assert(paths@.take(i + 1).drop_last() =~= paths@.take(i as int));
        if paths[i].0 == id {
            proof {
                lemma_summary_position_prefix(paths@, id, i + 1);
            }
            return Some(i);
        }
        i = i + 1;
    }
    assert(paths@.take(i as int) =~= paths@);
    None
}

/// Whether `s` is one of `v`.
fn contains_str(v: &Vec<String>, s: &str) -> (r: bool)
    ensures
        r == strings_view(v@).contains(s@),
{
    let mut i: usize = 0;
    while i < v.len()
        invariant
            i <= v@.len(),
            forall|j: int| 0 <= j < i ==> v@[j]@ != s@,
        decreases v@.len() - i,
    {
        if str_eq(v[i].as_str(), s) {
            assert(strings_view(v@)[i as int] == s@);
            return true;
        }
        i = i + 1;
    }
    proof {
        if strings_view(v@).contains(s@) {
            let j = choose|j: int| 0 <= j < strings_view(v@).len() && strings_view(v@)[j] == s@;
            assert(v@[j]@ == s@);
        }
    }
    false
}

/// A copy of a package identity.
fn copy_package(p: &PackageIdentity) -> (r: PackageIdentity)
    ensures
        package_view(r) == package_view(*p),
{
    PackageIdentity {
        package_id: p.package_id.clone(),
        name: p.name.clone(),
        version: p.version.clone(),
        source: match &p.source {
            Some(s) => Some(s.clone()),
            None => None,
        },
        manifest_path: p.manifest_path.clone(),
    }
}

/// `parent::name`.
fn child_path(parent: &str, name: &str) -> (r: String)
    ensures
        r@ == parent@ + "::"@ + name@,
{
    let mut out = to_owned(parent);
    push_str(&mut out, "::");
    push_str(&mut out, name);
    out
}

/// The views of recorded paths.
pub open spec fn paths_view(v: Seq<(u32, String)>) -> Seq<(u32, Seq<char>)> {
    v.map_values(|e: (u32, String)| (e.0, e.1@))
}

/// The walk over one crate: what it reads, and what it has built.
struct Walker<'a> {
    krate: &'a DocCrate,
    package: &'a PackageIdentity,
    root: &'a str,
    local_paths: Vec<(u32, String)>,
    docs: Vec<KnowledgeDocument>,
}

impl<'a> Walker<'a> {
    spec fn state(&self) -> WalkState {
        WalkState { paths: paths_view(self.local_paths@), docs: doc_views(self.docs@) }
    }

    spec fn same_env(&self, other: &Self) -> bool {
        &&& self.krate == other.krate
        &&& self.package == other.package
        &&& self.root == other.root
    }

    /// The path last recorded for `id`.
    fn lookup_local(&self, id: u32) -> (r: Option<String>)
        ensures
            opt_string_view(r) == lookup_path(self.state().paths, id),
    {
        let ghost pv = paths_view(self.local_paths@);
        let mut i: usize = self.local_paths.len();
        assert(pv.take(i as int) =~= pv);
        while i > 0
            invariant
                i <= self.local_paths@.len(),
                pv == paths_view(self.local_paths@),
                lookup_path(pv, id) == lookup_path(pv.take(i as int), id),
            decreases i,
        {
            assert(pv.take(i as int).drop_last() =~= pv.take(i - 1));
            if self.local_paths[i - 1].0 == id {
                return Some(self.local_paths[i - 1].1.clone());
            }
            i = i - 1;
        }
        None
    }

    /// The qualified path of an item.
    fn symbol_path(&self, id: u32) -> (r: Option<String>)
        ensures
            opt_string_view(r) == symbol_path_of(*self.krate, self.state().paths, id),
    {
        match self.lookup_local(id) {
            Some(p) => Some(p),
            None => match summary_of(&self.krate.paths, id) {
                Some(j) => {
                    let joined = join_strings(&self.krate.paths[j].1, "::");
                    assert(self.krate.paths@[j as int].1@.map_values(|p: String| p@)
                        =~= strings_view(self.krate.paths@[j as int].1@));
                    Some(joined)
                },
                None => None,
            },
        }
    }

    /// The related symbols of an item: its resolvable link targets other
    /// than itself, once each, at most eight.
    fn related_symbols(&self, item: &Item, self_path: &str) -> (r: Vec<String>)
        ensures
            strings_view(r@) == related_from(
                *self.krate,
                self.state().paths,
                item.links@,
                self_path@,
                Seq::empty(),
            ),
    {
        let ghost k = *self.krate;
        let ghost paths = self.state().paths;
        let ghost links = item.links@;
        let ghost whole = related_from(k, paths, links, self_path@, Seq::empty());
        let mut out: Vec<String> = Vec::new();
        let mut i: usize = 0;
        assert(links.skip(0) =~= links);
        assert(strings_view(out@) =~= Seq::<Seq<char>>::empty());
        while i < item.links.len() && out.len() < 8
            invariant
                i <= links.len(),
                links == item.links@,
                k == *self.krate,
                paths == self.state().paths,
                strings_view(out@).len() == out@.len(),
                out@.len() < 8 ==> whole == related_from(
                    k,
                    paths,
                    links.skip(i as int),
                    self_path@,
                    strings_view(out@),
                ),
                out@.len() >= 8 ==> whole == strings_view(out@),
            decreases links.len() - i,
        {
            let ghost before = strings_view(out@);
            assert(links.skip(i as int).drop_first() =~= links.skip(i + 1));
            assert(links.skip(i as int)[0] == links[i as int]);
            let target = item.links[i];
            match self.symbol_path(target) {
                Some(p) => {
                    if !str_eq(p.as_str(), self_path) && !contains_str(&out, p.as_str()) {
                        let ghost pv = p@;
                        out.push(p);
                        assert(strings_view(out@) =~= before.push(pv));
                    }
                },
                None => {},
            }
            i = i + 1;
        }
        proof {
            if out@.len() < 8 {
                assert(links.skip(i as int) =~= Seq::<u32>::empty());
            }
        }
        out
    }

    /// The resolved file and range of an item's span.
    fn span_of(&self, item: &Item) -> (r: (Option<String>, Option<SourceSpan>))
        ensures
            opt_string_view(r.0) == span_path(item.span, self.root@),
            r.1 == span_range(item.span),
    {
        match &item.span {
            None => (None, None),
            Some(s) => (
                Some(join_path(self.root, s.filename.as_str())),
                Some(
                    SourceSpan {
                        start_line: s.begin.0 as u32,
                        start_col: s.begin.1 as u32,
                        end_line: s.end.0 as u32,
                        end_col: s.end.1 as u32,
                    },
                ),
            ),
        }
    }

    /// Emits one document for `item` at `path`.
    fn push_doc(
        &mut self,
        item: &Item,
        path: &str,
        kind: SourceKind,
        title: String,
        item_kind: Option<String>,
        signature: Option<String>,
    )
        ensures
            final(self).same_env(old(self)),
            final(self).state() == pushed(
                *old(self).krate,
                *old(self).package,
                old(self).root@,
                old(self).state(),
                *item,
                path@,
                kind,
                title@,
                opt_string_view(item_kind),
                opt_string_view(signature),
            ),
    {
        let mut parts: Vec<&str> = Vec::new();
        parts.push(self.package.package_id.as_str());
        parts.push(kind.as_str());
        parts.push(path);
        parts.push("");
        parts.push("");
        assert(parts@.map_values(|q: &str| q@) =~= seq![
            self.package.package_id@,
            source_kind_name(kind),
            path@,
            ""@,
            ""@,
        ]);
        let id = DocumentId::from_identity(parts.as_slice());
        let related = self.related_symbols(item, path);
        let (source_path, source_span) = self.span_of(item);
        let text = match &item.docs {
            Some(t) => t.clone(),
            None => to_owned(""),
        };
        let doc = KnowledgeDocument {
            id,
            package: copy_package(self.package),
            source_kind: kind,
            title,
            symbol_path: Some(to_owned(path)),
            item_kind,
            section_path: Vec::new(),
            text,
            source_path,
            source_span,
            related_symbols: related,
            signature,
        };
        let ghost dv = doc_view(doc);
        let ghost before = doc_views(self.docs@);
        assert(strings_view(doc.section_path@) =~= Seq::<Seq<char>>::empty());
        self.docs.push(doc);
        assert(doc_views(self.docs@) =~= before.push(dv));
    }

    /// Records `path` for the local type or trait `id`.
    fn remember(&mut self, id: u32, path: &str)
        ensures
            final(self).same_env(old(self)),
            final(self).state() == remember(old(self).state(), id, path@),
    {
        let ghost before = paths_view(self.local_paths@);
        self.local_paths.push((id, to_owned(path)));
        assert(paths_view(self.local_paths@) =~= before.push((id, path@)));
    }

    /// Emits the document of a module whose docs are not blank.
    fn emit_module(&mut self, item: &Item, path: &str)
        ensures
            final(self).same_env(old(self)),
            final(self).state() == emit_module(
                *old(self).krate,
                *old(self).package,
                old(self).root@,
                old(self).state(),
                *item,
                path@,
            ),
    {
        let raw: &str = match &item.docs {
            Some(t) => t.as_str(),
            None => "",
        };
        let trimmed = trim_str(raw);
        if trimmed.as_str().is_empty() {
            return;
        }
        let title = match &item.name {
            Some(n) => n.clone(),
            None => self.package.name.clone(),
        };
        self.push_doc(item, path, SourceKind::RustdocModule, title, None, None);
    }

    /// Emits the document of an item of kind `kind`, unless it is a
    /// private item of the module tree.
    fn emit_item(&mut self, item: &Item, path: &str, kind: &str, ctx: Context)
        ensures
            final(self).same_env(old(self)),
            final(self).state() == emit_item(
                *old(self).krate,
                *old(self).package,
                old(self).root@,
                old(self).state(),
                *item,
                path@,
                kind@,
                ctx,
            ),
    {
        if !(item.visibility == Visibility::Public) && ctx == Context::Module {
            return;
        }
        let title = match &item.name {
            Some(n) => n.clone(),
            None => to_owned(path),
        };
        self.push_doc(item, path, SourceKind::RustdocItem, title, Some(to_owned(kind)), None);
    }

    /// Emits the document of a function, with its rendered signature.
    fn emit_function(&mut self, item: &Item, path: &str, f: &Function, ctx: Context)
        ensures
            final(self).same_env(old(self)),
            final(self).state() == emit_function(
                *old(self).krate,
                *old(self).package,
                old(self).root@,
                old(self).state(),
                *item,
                path@,
                *f,
                ctx,
            ),
    {
        if !(item.visibility == Visibility::Public) && ctx == Context::Module {
            return;
        }
        let title = match &item.name {
            Some(n) => n.clone(),
            None => to_owned(path),
        };
        let public = item.visibility == Visibility::Public || ctx != Context::Module;
        let signature = render_function(title.as_str(), f, public);
        self.push_doc(
            item,
            path,
            SourceKind::RustdocItem,
            title,
            Some(to_owned("function")),
            Some(signature),
        );
    }

    /// The name of the item `id`.
    fn item_name(&self, id: u32) -> (r: Option<String>)
        ensures
            opt_string_view(r) == item_name(*self.krate, id),
    {
        match position_of(&self.krate.index, id) {
            Some(i) => match &self.krate.index[i].name {
                Some(n) => Some(n.clone()),
                None => None,
            },
            None => None,
        }
    }

    /// The path under which an impl's items are found.
    fn impl_parent(&self, imp: &Impl, owner: &str) -> (r: String)
        ensures
            r@ == impl_parent(self.state().paths, *imp, owner@),
    {
        if let Type::ResolvedPath(tp) = &imp.for_ {
            if let Some(full) = self.lookup_local(tp.id) {
                return full;
            }
        }
        let rendered = render_type(&imp.for_);
        if !rendered.as_str().is_empty() && !str_eq(rendered.as_str(), owner) {
            rendered
        } else {
            to_owned(owner)
        }
    }

    /// Walks the item `id` at `path`.
    fn walk_item(&mut self, id: u32, path: String, ctx: Context, fuel: usize)
        ensures
            final(self).same_env(old(self)),
            final(self).state() == walk(
                *old(self).krate,
                *old(self).package,
                old(self).root@,
                old(self).state(),
                id,
                path@,
                ctx,
                fuel as nat,
            ),
        decreases fuel, 0nat,
    {
        if fuel == 0 {
            return;
        }
        let krate: &DocCrate = self.krate;
        match position_of(&krate.index, id) {
            None => {},
            Some(i) => {
                let item = &krate.index[i];
                if item.crate_id == 0 {
                    let f = fuel - 1;
                    let p = path.as_str();
                    match &item.inner {
                        ItemEnum::Module { is_crate: _, items } => {
                            self.emit_module(item, p);
                            self.walk_children(items, p, Context::Module, f);
                        },
                        ItemEnum::Struct { impls } => {
                            self.emit_item(item, p, "struct", ctx);
                            self.remember(id, p);
                            self.walk_impls(impls, p, f);
                        },
                        ItemEnum::Enum { variants, impls } => {
                            self.emit_item(item, p, "enum", ctx);
                            self.remember(id, p);
                            self.walk_children(variants, p, Context::Module, f);
                            self.walk_impls(impls, p, f);
                        },
                        ItemEnum::Union { impls } => {
                            self.emit_item(item, p, "union", ctx);
                            self.remember(id, p);
                            self.walk_impls(impls, p, f);
                        },
                        ItemEnum::Trait { items } => {
                            self.emit_item(item, p, "trait", ctx);
                            self.remember(id, p);
                            self.walk_children(items, p, Context::Trait, f);
                        },
                        ItemEnum::Function(func) => {
                            self.emit_function(item, p, func, ctx);
                        },
                        ItemEnum::TypeAlias => {
                            self.emit_item(item, p, "type_alias", ctx);
                        },
                        ItemEnum::Constant => {
                            self.emit_item(item, p, "constant", ctx);
                        },
                        ItemEnum::Static => {
                            self.emit_item(item, p, "static", ctx);
                        },
                        ItemEnum::Variant => {
                            self.emit_item(item, p, "variant", ctx);
                        },
                        ItemEnum::Macro => {
                            self.emit_item(item, p, "macro", ctx);
                        },
                        ItemEnum::ProcMacro(m) => {
                            let kind = match m {
                                MacroKind::Bang => "macro",
                                MacroKind::Attr => "attribute_macro",
                                MacroKind::Derive => "derive_macro",
                            };
                            self.emit_item(item, p, kind, ctx);
                        },
                        ItemEnum::Impl(_) => {},
                        ItemEnum::Other => {},
                    }
                }
            },
        }
    }

    /// Walks the named children `ids` of the item at `parent`.
    fn walk_children(&mut self, ids: &Vec<u32>, parent: &str, ctx: Context, fuel: usize)
        ensures
            final(self).same_env(old(self)),
            final(self).state() == walk_children(
                *old(self).krate,
                *old(self).package,
                old(self).root@,
                old(self).state(),
                ids@,
                parent@,
                ctx,
                fuel as nat,
            ),
        decreases fuel, ids@.len() + 1,
    {
        let ghost k = *self.krate;
        let ghost pk = *self.package;
        let ghost root = self.root@;
        let ghost whole = walk_children(k, pk, root, self.state(), ids@, parent@, ctx, fuel as nat);
        let mut j: usize = 0;
        assert(ids@.skip(0) =~= ids@);
        while j < ids.len()
            invariant
                j <= ids@.len(),
                self.same_env(old(self)),
                k == *self.krate,
                pk == *self.package,
                root == self.root@,
                whole == walk_children(
                    k,
                    pk,
                    root,
                    self.state(),
                    ids@.skip(j as int),
                    parent@,
                    ctx,
                    fuel as nat,
                ),
            decreases ids@.len() - j,
        {
            assert(ids@.skip(j as int).drop_first() =~= ids@.skip(j + 1));
            assert(ids@.skip(j as int)[0] == ids@[j as int]);
            let child = ids[j];
            match self.item_name(child) {
                Some(name) => {
                    let child_at = child_path(parent, name.as_str());
                    self.walk_item(child, child_at, ctx, fuel);
                },
                None => {},
            }
            j = j + 1;
        }
        assert(ids@.skip(j as int) =~= Seq::<u32>::empty());
    }

    /// Walks the impl blocks `ids` of the type at `owner`.
    fn walk_impls(&mut self, ids: &Vec<u32>, owner: &str, fuel: usize)
        ensures
            final(self).same_env(old(self)),
            final(self).state() == walk_impls(
                *old(self).krate,
                *old(self).package,
                old(self).root@,
                old(self).state(),
                ids@,
                owner@,
                fuel as nat,
            ),
        decreases fuel, ids@.len() + 1,
    {
        let ghost k = *self.krate;
        let ghost pk = *self.package;
        let ghost root = self.root@;
        let ghost whole = walk_impls(k, pk, root, self.state(), ids@, owner@, fuel as nat);
        let mut j: usize = 0;
        assert(ids@.skip(0) =~= ids@);
        while j < ids.len()
            invariant
                j <= ids@.len(),
                self.same_env(old(self)),
                k == *self.krate,
                pk == *self.package,
                root == self.root@,
                whole == walk_impls(
                    k,
                    pk,
                    root,
                    self.state(),
                    ids@.skip(j as int),
                    owner@,
                    fuel as nat,
                ),
            decreases ids@.len() - j,
        {
            assert(ids@.skip(j as int).drop_first() =~= ids@.skip(j + 1));
            assert(ids@.skip(j as int)[0] == ids@[j as int]);
            self.walk_impl(ids[j], owner, fuel);
            j = j + 1;
        }
        assert(ids@.skip(j as int) =~= Seq::<u32>::empty());
    }

    /// Walks one impl block.
    fn walk_impl(&mut self, id: u32, owner: &str, fuel: usize)
        ensures
            final(self).same_env(old(self)),
            final(self).state() == walk_impl(
                *old(self).krate,
                *old(self).package,
                old(self).root@,
                old(self).state(),
                id,
                owner@,
                fuel as nat,
            ),
        decreases fuel, 0nat,
    {
        if fuel == 0 {
            return;
        }
        let krate: &DocCrate = self.krate;
        match position_of(&krate.index, id) {
            None => {},
            Some(i) => {
                let item = &krate.index[i];
                if item.crate_id == 0 {
                    match &item.inner {
                        ItemEnum::Impl(imp) => {
                            if !imp.is_synthetic {
                                let foreign = match &imp.trait_ {
                                    Some(t) => self.lookup_local(t.id).is_none(),
                                    None => false,
                                };
                                if !foreign {
                                    let parent = self.impl_parent(imp, owner);
                                    self.walk_children(
                                        &imp.items,
                                        parent.as_str(),
                                        Context::LocalImpl,
                                        fuel - 1,
                                    );
                                }
                            }
                        },
                        _ => {},
                    }
                }
            },
        }
    }
}

/// The symbol-path prefix of a package: its name with `-` as `_` (the
/// name rustdoc gives the crate root).
fn crate_name_for(package: &PackageIdentity) -> (r: String)
    ensures
        r@ == crate_name(package.name@),
{
    replace_char_str(package.name.as_str(), '-', "_")
}

/// The format-version warning.
fn version_warning_text(display: &str, got: u32, expected: u32) -> (r: String)
    ensures
        r@ == version_warning(display@, got, expected),
{
    let mut out = to_owned("rustdoc JSON for ");
    push_str(&mut out, display);
    push_str(&mut out, " has format_version ");
    let g = decimal_string(got as u64);
    push_str(&mut out, g.as_str());
    push_str(&mut out, ", parser supports ");
    let e = decimal_string(expected as u64);
    push_str(&mut out, e.as_str());
    push_str(&mut out, ";              parsing succeeded, but results may be inaccurate");
    out
}

/// Normalizes a parsed rustdoc crate of `package` into documents: the walk
/// of the crate from its root module, and a warning when the crate's format
/// version is not `expected`. Spans are resolved against `workspace_root`.
pub fn normalize(
    package: &PackageIdentity,
    krate: &DocCrate,
    workspace_root: &str,
    expected: u32,
) -> (r: RustdocNormalized)
    ensures
        r.format_version == krate.format_version,
        doc_views(r.documents@) == walk_crate(*krate, *package, workspace_root@).docs,
        strings_view(r.warnings@) == warnings_for(*package, krate.format_version, expected),
{
    let got = krate.format_version;
    let mut warnings: Vec<String> = Vec::new();
    if got != expected {
        let display = package.display();
        warnings.push(version_warning_text(display.as_str(), got, expected));
    }
    let mut walker = Walker {
        krate,
        package,
        root: workspace_root,
        local_paths: Vec::new(),
        docs: Vec::new(),
    };
    assert(walker.state() =~= empty_state());
    let root_path = crate_name_for(package);
    walker.walk_item(krate.root, root_path, Context::Root, krate.index.len());
    assert(strings_view(warnings@) =~= warnings_for(*package, got, expected));
    RustdocNormalized { format_version: got, documents: walker.docs, warnings }
}

/// A well-formed document of the walk: it carries the package's identity
/// and a symbol path, its id derives from the package id, its kind and the
/// path; a module document has no item kind and an item document has one;
/// its related symbols are at most eight distinct paths other than its own.
pub open spec fn doc_ok(p: PackageIdentity, d: DocView) -> bool {
    &&& d.symbol_path is Some
    &&& d.id == id_of_parts(
        seq![p.package_id@, source_kind_name(d.source_kind), d.symbol_path->0, ""@, ""@],
    )
    &&& d.package == package_view(p)
    &&& (d.source_kind == SourceKind::RustdocModule || d.source_kind == SourceKind::RustdocItem)
    &&& (d.source_kind == SourceKind::RustdocModule) == (d.item_kind is None)
    &&& d.section_path.len() == 0
    &&& d.related_symbols.len() <= 8
    &&& !d.related_symbols.contains(d.symbol_path->0)
    &&& d.related_symbols.no_duplicates()
}

/// Every document is well formed.
pub open spec fn docs_ok(p: PackageIdentity, docs: Seq<DocView>) -> bool {
    forall|i: int| 0 <= i < docs.len() ==> doc_ok(p, #[trigger] docs[i])
}

proof fn lemma_related_ok(
    k: DocCrate,
    local: Seq<(u32, Seq<char>)>,
    links: Seq<u32>,
    self_path: Seq<char>,
    out: Seq<Seq<char>>,
)
    requires
        out.len() < 8,
        !out.contains(self_path),
        out.no_duplicates(),
    ensures
        related_from(k, local, links, self_path, out).len() <= 8,
        !related_from(k, local, links, self_path, out).contains(self_path),
        related_from(k, local, links, self_path, out).no_duplicates(),
    decreases links.len(),
{
    if links.len() > 0 {
        let next = match symbol_path_of(k, local, links[0]) {
            Some(q) => if q != self_path && !out.contains(q) {
                out.push(q)
            } else {
                out
            },
            None => out,
        };
        assert(next.len() <= out.len() + 1);
        assert(!next.contains(self_path) && next.no_duplicates()) by {
            if next.len() == out.len() + 1 {
                let q = next.last();
                assert(next =~= out.push(q));
                assert(q != self_path);
                assert(!out.contains(q));
                if next.contains(self_path) {
                    let i = choose|i: int| 0 <= i < next.len() && next[i] == self_path;
                    if i < out.len() {
                        assert(out[i] == self_path);
                    }
                }
                assert forall|i: int, j: int|
                    0 <= i < next.len() && 0 <= j < next.len() && i != j implies next[i]
                    != next[j] by {
                    if i < out.len() && j < out.len() {
                    } else if i < out.len() {
                        assert(out[i] == next[i]);
                    } else if j < out.len() {
                        assert(out[j] == next[j]);
                    }
                }
            }
        }
        if next.len() < 8 {
            lemma_related_ok(k, local, links.drop_first(), self_path, next);
        }
    }
}

proof fn lemma_pushed_ok(
    k: DocCrate,
    p: PackageIdentity,
    root: Seq<char>,
    st: WalkState,
    item: Item,
    path: Seq<char>,
    kind: SourceKind,
    title: Seq<char>,
    item_kind: Option<Seq<char>>,
    signature: Option<Seq<char>>,
)
    requires
        docs_ok(p, st.docs),
        kind == SourceKind::RustdocModule || kind == SourceKind::RustdocItem,
        (kind == SourceKind::RustdocModule) == (item_kind is None),
    ensures
        docs_ok(p, pushed(k, p, root, st, item, path, kind, title, item_kind, signature).docs),
{
    lemma_related_ok(k, st.paths, item.links@, path, Seq::empty());
    let docs = pushed(k, p, root, st, item, path, kind, title, item_kind, signature).docs;
    assert forall|i: int| 0 <= i < docs.len() implies doc_ok(p, #[trigger] docs[i]) by {
        if i < st.docs.len() {
            assert(docs[i] == st.docs[i]);
        }
    }
}

proof fn lemma_emit_module_ok(
    k: DocCrate,
    p: PackageIdentity,
    root: Seq<char>,
    st: WalkState,
    item: Item,
    path: Seq<char>,
)
    requires
        docs_ok(p, st.docs),
    ensures
        docs_ok(p, emit_module(k, p, root, st, item, path).docs),
{
    let title = match item.name {
        Some(n) => n@,
        None => p.name@,
    };
    lemma_pushed_ok(k, p, root, st, item, path, SourceKind::RustdocModule, title, None, None);
}

proof fn lemma_emit_item_ok(
    k: DocCrate,
    p: PackageIdentity,
    root: Seq<char>,
    st: WalkState,
    item: Item,
    path: Seq<char>,
    kind: Seq<char>,
    ctx: Context,
)
    requires
        docs_ok(p, st.docs),
    ensures
        docs_ok(p, emit_item(k, p, root, st, item, path, kind, ctx).docs),
{
    lemma_pushed_ok(
        k,
        p,
        root,
        st,
        item,
        path,
        SourceKind::RustdocItem,
        title_of(item, path),
        Some(kind),
        None,
    );
}

proof fn lemma_emit_function_ok(
    k: DocCrate,
    p: PackageIdentity,
    root: Seq<char>,
    st: WalkState,
    item: Item,
    path: Seq<char>,
    f: Function,
    ctx: Context,
)
    requires
        docs_ok(p, st.docs),
    ensures
        docs_ok(p, emit_function(k, p, root, st, item, path, f, ctx).docs),
{
    let title = title_of(item, path);
    let public = is_public(item) || ctx != Context::Module;
    lemma_pushed_ok(
        k,
        p,
        root,
        st,
        item,
        path,
        SourceKind::RustdocItem,
        title,
        Some("function"@),
        Some(function_text(title, f, public)),
    );
}

proof fn lemma_walk_ok(
    k: DocCrate,
    p: PackageIdentity,
    root: Seq<char>,
    st: WalkState,
    id: u32,
    path: Seq<char>,
    ctx: Context,
    fuel: nat,
)
    requires
        docs_ok(p, st.docs),
    ensures
        docs_ok(p, walk(k, p, root, st, id, path, ctx, fuel).docs),
    decreases fuel, 0nat,
{
    if fuel > 0 {
        match item_at(k, id) {
            None => {},
            Some(item) => if item.crate_id == 0 {
                let f = (fuel - 1) as nat;
                match item.inner {
                    ItemEnum::Module { is_crate, items } => {
                        lemma_emit_module_ok(k, p, root, st, item, path);
                        lemma_children_ok(
                            k,
                            p,
                            root,
                            emit_module(k, p, root, st, item, path),
                            items@,
                            path,
                            Context::Module,
                            f,
                        );
                    },
                    ItemEnum::Struct { impls } => {
                        lemma_emit_item_ok(k, p, root, st, item, path, "struct"@, ctx);
                        lemma_impls_ok(
                            k,
                            p,
                            root,
                            remember(emit_item(k, p, root, st, item, path, "struct"@, ctx), id, path),
                            impls@,
                            path,
                            f,
                        );
                    },
                    ItemEnum::Enum { variants, impls } => {
                        lemma_emit_item_ok(k, p, root, st, item, path, "enum"@, ctx);
                        let s1 = remember(emit_item(k, p, root, st, item, path, "enum"@, ctx), id, path);
                        lemma_children_ok(k, p, root, s1, variants@, path, Context::Module, f);
                        lemma_impls_ok(
                            k,
                            p,
                            root,
                            walk_children(k, p, root, s1, variants@, path, Context::Module, f),
                            impls@,
                            path,
                            f,
                        );
                    },
                    ItemEnum::Union { impls } => {
                        lemma_emit_item_ok(k, p, root, st, item, path, "union"@, ctx);
                        lemma_impls_ok(
                            k,
                            p,
                            root,
                            remember(emit_item(k, p, root, st, item, path, "union"@, ctx), id, path),
                            impls@,
                            path,
                            f,
                        );
                    },
                    ItemEnum::Trait { items } => {
                        lemma_emit_item_ok(k, p, root, st, item, path, "trait"@, ctx);
                        lemma_children_ok(
                            k,
                            p,
                            root,
                            remember(emit_item(k, p, root, st, item, path, "trait"@, ctx), id, path),
                            items@,
                            path,
                            Context::Trait,
                            f,
                        );
                    },
                    ItemEnum::Function(func) => {
                        lemma_emit_function_ok(k, p, root, st, item, path, func, ctx);
                    },
                    ItemEnum::TypeAlias => {
                        lemma_emit_item_ok(k, p, root, st, item, path, "type_alias"@, ctx);
                    },
                    ItemEnum::Constant => {
                        lemma_emit_item_ok(k, p, root, st, item, path, "constant"@, ctx);
                    },
                    ItemEnum::Static => {
                        lemma_emit_item_ok(k, p, root, st, item, path, "static"@, ctx);
                    },
                    ItemEnum::Variant => {
                        lemma_emit_item_ok(k, p, root, st, item, path, "variant"@, ctx);
                    },
                    ItemEnum::Macro => {
                        lemma_emit_item_ok(k, p, root, st, item, path, "macro"@, ctx);
                    },
                    ItemEnum::ProcMacro(m) => {
                        lemma_emit_item_ok(k, p, root, st, item, path, macro_kind_name(m), ctx);
                    },
                    ItemEnum::Impl(_) => {},
                    ItemEnum::Other => {},
                }
            },
        }
    }
}

proof fn lemma_children_ok(
    k: DocCrate,
    p: PackageIdentity,
    root: Seq<char>,
    st: WalkState,
    ids: Seq<u32>,
    parent: Seq<char>,
    ctx: Context,
    fuel: nat,
)
    requires
        docs_ok(p, st.docs),
    ensures
        docs_ok(p, walk_children(k, p, root, st, ids, parent, ctx, fuel).docs),
    decreases fuel, ids.len() + 1,
{
    if ids.len() > 0 {
        let next = match item_name(k, ids[0]) {
            Some(name) => walk(k, p, root, st, ids[0], parent + "::"@ + name, ctx, fuel),
            None => st,
        };
        match item_name(k, ids[0]) {
            Some(name) => lemma_walk_ok(k, p, root, st, ids[0], parent + "::"@ + name, ctx, fuel),
            None => {},
        }
        lemma_children_ok(k, p, root, next, ids.drop_first(), parent, ctx, fuel);
    }
}

proof fn lemma_impls_ok(
    k: DocCrate,
    p: PackageIdentity,
    root: Seq<char>,
    st: WalkState,
    ids: Seq<u32>,
    owner: Seq<char>,
    fuel: nat,
)
    requires
        docs_ok(p, st.docs),
    ensures
        docs_ok(p, walk_impls(k, p, root, st, ids, owner, fuel).docs),
    decreases fuel, ids.len() + 1,
{
    if ids.len() > 0 {
        lemma_impl_ok(k, p, root, st, ids[0], owner, fuel);
        lemma_impls_ok(
            k,
            p,
            root,
            walk_impl(k, p, root, st, ids[0], owner, fuel),
            ids.drop_first(),
            owner,
            fuel,
        );
    }
}

proof fn lemma_impl_ok(
    k: DocCrate,
    p: PackageIdentity,
    root: Seq<char>,
    st: WalkState,
    id: u32,
    owner: Seq<char>,
    fuel: nat,
)
    requires
        docs_ok(p, st.docs),
    ensures
        docs_ok(p, walk_impl(k, p, root, st, id, owner, fuel).docs),
    decreases fuel, 0nat,
{
    if fuel > 0 {
        match item_at(k, id) {
            None => {},
            Some(item) => if item.crate_id == 0 {
                match item.inner {
                    ItemEnum::Impl(imp) => {
                        lemma_children_ok(
                            k,
                            p,
                            root,
                            st,
                            imp.items@,
                            impl_parent(st.paths, imp, owner),
                            Context::LocalImpl,
                            (fuel - 1) as nat,
                        );
                    },
                    _ => {},
                }
            },
        }
    }
}

/// Every document that normalizing a crate yields is well formed: it
/// carries the package's identity and a symbol path, its id is derived
/// from the package id, its kind and that path, module documents alone
/// lack an item kind, and its related symbols are at most eight distinct
/// paths other than its own.
pub proof fn law_normalized_documents_are_well_formed(
    k: DocCrate,
    p: PackageIdentity,
    root: Seq<char>,
)
    ensures
        docs_ok(p, walk_crate(k, p, root).docs),
{
    lemma_walk_ok(
        k,
        p,
        root,
        empty_state(),
        k.root,
        crate_name(p.name@),
        Context::Root,
        k.index@.len(),
    );
}

/// `b` keeps the documents of `a` as its first ones.
pub open spec fn docs_extend(a: Seq<DocView>, b: Seq<DocView>) -> bool {
    a.len() <= b.len() && forall|i: int| 0 <= i < a.len() ==> #[trigger] b[i] == a[i]
}

proof fn lemma_walk_extends(
    k: DocCrate,
    p: PackageIdentity,
    root: Seq<char>,
    st: WalkState,
    id: u32,
    path: Seq<char>,
    ctx: Context,
    fuel: nat,
)
    ensures
        docs_extend(st.docs, walk(k, p, root, st, id, path, ctx, fuel).docs),
    decreases fuel, 0nat,
{
    if fuel > 0 {
        match item_at(k, id) {
            None => {},
            Some(item) => if item.crate_id == 0 {
                let f = (fuel - 1) as nat;
                match item.inner {
                    ItemEnum::Module { is_crate, items } => {
                        let s1 = emit_module(k, p, root, st, item, path);
                        lemma_walk_children_extends(k, p, root, s1, items@, path, Context::Module, f);
                    },
                    ItemEnum::Struct { impls } => {
                        let s1 = remember(
                            emit_item(k, p, root, st, item, path, "struct"@, ctx),
                            id,
                            path,
                        );
                        lemma_walk_impls_extends(k, p, root, s1, impls@, path, f);
                    },
                    ItemEnum::Enum { variants, impls } => {
                        let s1 = remember(
                            emit_item(k, p, root, st, item, path, "enum"@, ctx),
                            id,
                            path,
                        );
                        lemma_walk_children_extends(k, p, root, s1, variants@, path, Context::Module, f);
                        let s2 = walk_children(k, p, root, s1, variants@, path, Context::Module, f);
                        lemma_walk_impls_extends(k, p, root, s2, impls@, path, f);
                    },
                    ItemEnum::Union { impls } => {
                        let s1 = remember(
                            emit_item(k, p, root, st, item, path, "union"@, ctx),
                            id,
                            path,
                        );
                        lemma_walk_impls_extends(k, p, root, s1, impls@, path, f);
                    },
                    ItemEnum::Trait { items } => {
                        let s1 = remember(
                            emit_item(k, p, root, st, item, path, "trait"@, ctx),
                            id,
                            path,
                        );
                        lemma_walk_children_extends(k, p, root, s1, items@, path, Context::Trait, f);
                    },
                    _ => {},
                }
            },
        }
    }
}

proof fn lemma_walk_children_extends(
    k: DocCrate,
    p: PackageIdentity,
    root: Seq<char>,
    st: WalkState,
    ids: Seq<u32>,
    parent: Seq<char>,
    ctx: Context,
    fuel: nat,
)
    ensures
        docs_extend(st.docs, walk_children(k, p, root, st, ids, parent, ctx, fuel).docs),
    decreases fuel, ids.len() + 1,
{
    if ids.len() > 0 {
        let next = match item_name(k, ids[0]) {
            Some(name) => walk(k, p, root, st, ids[0], parent + "::"@ + name, ctx, fuel),
            None => st,
        };
        match item_name(k, ids[0]) {
            Some(name) => lemma_walk_extends(k, p, root, st, ids[0], parent + "::"@ + name, ctx, fuel),
            None => {},
        }
        lemma_walk_children_extends(k, p, root, next, ids.drop_first(), parent, ctx, fuel);
    }
}

proof fn lemma_walk_impls_extends(
    k: DocCrate,
    p: PackageIdentity,
    root: Seq<char>,
    st: WalkState,
    ids: Seq<u32>,
    owner: Seq<char>,
    fuel: nat,
)
    ensures
        docs_extend(st.docs, walk_impls(k, p, root, st, ids, owner, fuel).docs),
    decreases fuel, ids.len() + 1,
{
    if ids.len() > 0 {
        lemma_walk_impl_extends(k, p, root, st, ids[0], owner, fuel);
        let next = walk_impl(k, p, root, st, ids[0], owner, fuel);
        lemma_walk_impls_extends(k, p, root, next, ids.drop_first(), owner, fuel);
    }
}

proof fn lemma_walk_impl_extends(
    k: DocCrate,
    p: PackageIdentity,
    root: Seq<char>,
    st: WalkState,
    id: u32,
    owner: Seq<char>,
    fuel: nat,
)
    ensures
        docs_extend(st.docs, walk_impl(k, p, root, st, id, owner, fuel).docs),
    decreases fuel, 0nat,
{
    if fuel > 0 {
        match item_at(k, id) {
            Some(item) => if item.crate_id == 0 {
                match item.inner {
                    ItemEnum::Impl(imp) => lemma_walk_children_extends(
                        k,
                        p,
                        root,
                        st,
                        imp.items@,
                        impl_parent(st.paths, imp, owner),
                        Context::LocalImpl,
                        (fuel - 1) as nat,
                    ),
                    _ => {},
                }
            },
            None => {},
        }
    }
}

/// An associated item that an impl documents: a method, an associated
/// type or an associated constant.
pub open spec fn is_impl_member(inner: ItemEnum) -> bool {
    inner is Function || inner is TypeAlias || inner is Constant
}

proof fn lemma_walk_children_emits(
    k: DocCrate,
    p: PackageIdentity,
    root: Seq<char>,
    st: WalkState,
    ids: Seq<u32>,
    parent: Seq<char>,
    fuel: nat,
    j: int,
    child: Item,
)
    requires
        fuel >= 1,
        0 <= j < ids.len(),
        item_at(k, ids[j]) == Some(child),
        child.crate_id == 0,
        child.name is Some,
        is_impl_member(child.inner),
    ensures
        exists|i: int|
            0 <= i < walk_children(k, p, root, st, ids, parent, Context::LocalImpl, fuel).docs.len()
                && #[trigger] walk_children(
                k,
                p,
                root,
                st,
                ids,
                parent,
                Context::LocalImpl,
                fuel,
            ).docs[i].symbol_path == Some(parent + "::"@ + child.name->0@),
    decreases j,
{
    let next = match item_name(k, ids[0]) {
        Some(name) => walk(k, p, root, st, ids[0], parent + "::"@ + name, Context::LocalImpl, fuel),
        None => st,
    };
    let r = walk_children(k, p, root, st, ids, parent, Context::LocalImpl, fuel);
    assert(r == walk_children(k, p, root, next, ids.drop_first(), parent, Context::LocalImpl, fuel));
    if j == 0 {
        let path = parent + "::"@ + child.name->0@;
        assert(item_name(k, ids[0]) == Some(child.name->0@));
        assert(next.docs.len() == st.docs.len() + 1);
        assert(next.docs[st.docs.len() as int].symbol_path == Some(path));
        lemma_walk_children_extends(k, p, root, next, ids.drop_first(), parent, Context::LocalImpl, fuel);
        assert(r.docs[st.docs.len() as int] == next.docs[st.docs.len() as int]);
    } else {
        match item_name(k, ids[0]) {
            Some(name) => lemma_walk_extends(
                k,
                p,
                root,
                st,
                ids[0],
                parent + "::"@ + name,
                Context::LocalImpl,
                fuel,
            ),
            None => {},
        }
        assert(ids.drop_first()[j - 1] == ids[j]);
        lemma_walk_children_emits(k, p, root, next, ids.drop_first(), parent, fuel, j - 1, child);
    }
}

/// The name of the item `id` when it is an associated item of this crate
/// that an impl documents.
pub open spec fn impl_member_name(k: DocCrate, id: u32) -> Option<Seq<char>> {
    match item_at(k, id) {
        Some(c) => if c.crate_id == 0 && is_impl_member(c.inner) {
            opt_string_view(c.name)
        } else {
            None
        },
        None => None,
    }
}

/// The walk of an impl block follows whose trait it implements. An impl of
/// a trait whose path the walk has already recorded (a local trait)
/// documents each of its named methods, associated types and constants
/// under the impl's parent path; an impl of any other trait documents
/// nothing.
pub proof fn law_local_trait_impls_are_walked(
    k: DocCrate,
    p: PackageIdentity,
    root: Seq<char>,
    st: WalkState,
    id: u32,
    owner: Seq<char>,
    fuel: nat,
    imp: Impl,
)
    requires
        item_at(k, id) matches Some(item) && item.crate_id == 0 && item.inner == ItemEnum::Impl(imp),
        !imp.is_synthetic,
        imp.trait_ is Some,
    ensures
        lookup_path(st.paths, imp.trait_->0.id) is None ==> walk_impl(
            k,
            p,
            root,
            st,
            id,
            owner,
            fuel,
        ) == st,
        lookup_path(st.paths, imp.trait_->0.id) is Some && fuel >= 2 ==> forall|j: int|
            0 <= j < imp.items@.len() && #[trigger] impl_member_name(k, imp.items@[j]) is Some ==> exists|i: int|
                0 <= i < walk_impl(k, p, root, st, id, owner, fuel).docs.len()
                    && #[trigger] walk_impl(k, p, root, st, id, owner, fuel).docs[i].symbol_path
                    == Some(impl_parent(st.paths, imp, owner) + "::"@ + impl_member_name(k, imp.items@[j])->0),
{
    if lookup_path(st.paths, imp.trait_->0.id) is Some && fuel >= 2 {
        assert forall|j: int|
            0 <= j < imp.items@.len() && #[trigger] impl_member_name(k, imp.items@[j]) is Some implies exists|i: int|
            0 <= i < walk_impl(k, p, root, st, id, owner, fuel).docs.len()
                && #[trigger] walk_impl(k, p, root, st, id, owner, fuel).docs[i].symbol_path
                == Some(impl_parent(st.paths, imp, owner) + "::"@ + impl_member_name(k, imp.items@[j])->0) by {
            let child = item_at(k, imp.items@[j])->0;
            let parent = impl_parent(st.paths, imp, owner);
            assert(walk_impl(k, p, root, st, id, owner, fuel) == walk_children(
                k,
                p,
                root,
                st,
                imp.items@,
                parent,
                Context::LocalImpl,
                (fuel - 1) as nat,
            ));
            lemma_walk_children_emits(
                k,
                p,
                root,
                st,
                imp.items@,
                parent,
                (fuel - 1) as nat,
                j,
                child,
            );
        }
    }
}

} // verus!
