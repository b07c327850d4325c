//! The resolved Cargo package universe and cargo-binary selection.
//!
//! `cargo metadata` is the authoritative representation of the dependency
//! universe: every package is identified by Cargo's opaque package id,
//! located by its manifest path, and classified by source. The universe is
//! held here as plain values, as cargo reported them.
use vstd::prelude::*;

pub mod discovery;
pub mod metadata;

use crate::error::IndexError;
use crate::id::{extend_bytes, hex, hex_prefix, sha256, sha256_digest};
use crate::model::{views, PackageIdentity};
use crate::paths::join_path;
use crate::text::{
    chars_of, join, opt_string_view, push_str, sort_texts, sorted_texts, starts_with, str_eq,
    str_starts_with, string_of, strings_view, text_le, text_le_str, trim, trim_str,
};
use vstd::utf8::encode_utf8;

verus! {

/// The env var that names the cargo binary the engine spawns when the
/// frontends' `--cargo` flag is absent.
pub const CARGO_ENV_VAR: &'static str = "RUST_KNOWLEDGE_CARGO";

/// The binary `resolve_cargo` settles on before it is made absolute: an
/// explicit value beats the environment value, which beats `cargo` on
/// `$PATH` (`None`). Values are trimmed; empty or whitespace-only values
/// count as unset.
pub open spec fn cargo_choice_spec(explicit: Option<Seq<char>>, env_cargo: Option<Seq<char>>) -> Option<
    Seq<char>,
> {
    if explicit matches Some(e) && trim(e).len() > 0 {
        Some(trim(explicit->0))
    } else if env_cargo matches Some(v) && trim(v).len() > 0 {
        Some(trim(env_cargo->0))
    } else {
        None
    }
}

/// The precedence decision of [`resolve_cargo`]: the trimmed binary it
/// selects, or `None` for `cargo` from `$PATH`.
pub fn cargo_choice(explicit: Option<&str>, env_cargo: Option<String>) -> (r: Option<String>)
    ensures
        opt_string_view(r) == cargo_choice_spec(
            crate::text::opt_view(explicit),
            opt_string_view(env_cargo),
        ),
{
    if let Some(path) = explicit {
        let trimmed = trim_str(path);
        if !trimmed.as_str().is_empty() {
            return Some(trimmed);
        }
    }
    match env_cargo {
        Some(cargo) => {
            let trimmed = trim_str(cargo.as_str());
            if trimmed.as_str().is_empty() {
                None
            } else {
                Some(trimmed)
            }
        },
        None => None,
    }
}

/// `p` is non-empty and has neither an empty component (`//`) nor a `.`
/// component: a path that `std::path::absolute` keeps as it is, prefixing
/// only the working directory when `p` is relative.
pub open spec fn is_clean_path(p: Seq<char>) -> bool {
    &&& p.len() > 0
    &&& forall|i: int| 0 <= i < p.len() - 1 ==> !(#[trigger] p[i] == '/' && p[i + 1] == '/')
    &&& forall|i: int|
        0 <= i < p.len() && #[trigger] p[i] == '.' ==> !((i == 0 || p[i - 1] == '/') && (i == p.len()
            - 1 || p[i + 1] == '/'))
}

/// `s` ends with `suffix`.
pub open spec fn ends_with(s: Seq<char>, suffix: Seq<char>) -> bool {
    suffix.len() <= s.len() && s.subrange(s.len() - suffix.len(), s.len() as int) == suffix
}

/// Makes a configured cargo binary absolute against the process's working
/// directory (`std::path::absolute`), or gives it back when that fails.
/// `std::path::absolute` documents that on POSIX it does not touch the file
/// system, keeps `..` components and trailing slashes, drops `.`
/// components and repeated separators, and joins a relative path to the
/// working directory. So a clean absolute path comes back unchanged, and a
/// clean relative one comes back as given (on failure) or as an absolute
/// path ending in `/` and the input. Which working directory that is, the
/// contract does not say.
#[verifier::external_body]
fn absolute_bin(cargo: &str) -> (r: String)
    ensures
        crate::paths::is_absolute(r@) || r@ == cargo@,
        is_clean_path(cargo@) && crate::paths::is_absolute(cargo@) ==> r@ == cargo@,
        is_clean_path(cargo@) && !crate::paths::is_absolute(cargo@) ==> r@ == cargo@ || (
        crate::paths::is_absolute(r@) && ends_with(r@, seq!['/'] + cargo@)),
{
    match std::path::absolute(cargo) {
        Ok(p) => p.to_string_lossy().into_owned(),
        Err(_) => cargo.to_owned(),
    }
}

/// Resolves which cargo binary a spawn invokes: an explicit binary beats a
/// raw [`CARGO_ENV_VAR`] value, which beats plain `cargo` on `$PATH`
/// (`None`). Empty or whitespace-only values are treated as unset. The
/// selected value is made absolute against the working directory; a clean
/// absolute value is kept as it is, so resolving a resolved value again
/// selects the same binary.
pub fn resolve_cargo(explicit: Option<&str>, env_cargo: Option<String>) -> (r: Option<String>)
    ensures
        r.is_some() == cargo_choice_spec(
            crate::text::opt_view(explicit),
            opt_string_view(env_cargo),
        ).is_some(),
        cargo_choice_spec(crate::text::opt_view(explicit), opt_string_view(env_cargo)) matches Some(
            c,
        ) ==> r matches Some(p) && (crate::paths::is_absolute(p@) || p@ == c) && (is_clean_path(c)
            && crate::paths::is_absolute(c) ==> p@ == c) && (is_clean_path(c)
            && !crate::paths::is_absolute(c) ==> p@ == c || (crate::paths::is_absolute(p@)
            && ends_with(p@, seq!['/'] + c))),
{
    match cargo_choice(explicit, env_cargo) {
        Some(cargo) => Some(absolute_bin(cargo.as_str())),
        None => None,
    }
}

/// Resolving a value that is already resolved selects it again: a clean,
/// absolute, trimmed binary passed explicitly is the choice whatever the
/// environment holds, and [`resolve_cargo`] keeps such a choice unchanged.
pub proof fn law_resolved_cargo_selects_itself(c: Seq<char>, env_cargo: Option<Seq<char>>)
    requires
        is_clean_path(c),
        crate::paths::is_absolute(c),
        trim(c) == c,
    ensures
        cargo_choice_spec(Some(c), env_cargo) == Some(c),
{
}

/// How a package entered the resolved graph.
#[derive(Clone, Copy, Debug, PartialEq, Eq, Structural)]
pub enum Origin {
    /// A workspace member.
    Workspace,
    /// A path dependency that is not a workspace member.
    Path,
    /// A git dependency.
    Git,
    /// A registry (e.g. crates.io) dependency.
    Registry,
}

/// The stable name of an origin.
pub open spec fn origin_name(o: Origin) -> Seq<char> {
    match o {
        Origin::Workspace => "workspace"@,
        Origin::Path => "path"@,
        Origin::Git => "git"@,
        Origin::Registry => "registry"@,
    }
}

impl Origin {
    /// The stable name of this origin.
    pub fn as_str(&self) -> (r: &'static str)
        ensures
            r@ == origin_name(*self),
    {
        match self {
            Origin::Workspace => "workspace",
            Origin::Path => "path",
            Origin::Git => "git",
            Origin::Registry => "registry",
        }
    }
}

/// The kind of a build target, as cargo metadata reports it.
#[derive(Clone, Copy, Debug, PartialEq, Eq, Structural)]
pub enum TargetKind {
    Lib,
    RLib,
    DyLib,
    CDyLib,
    StaticLib,
    ProcMacro,
    Bin,
    Example,
    Test,
    Bench,
    CustomBuild,
    Other,
}

/// A build target of a package.
#[derive(Clone, Debug)]
pub struct Target {
    pub name: String,
    pub kinds: Vec<TargetKind>,
}

/// A resolved package, as cargo metadata reports it.
#[derive(Clone, Debug)]
pub struct Package {
    /// Cargo's opaque package id.
    pub id: String,
    pub name: String,
    /// The version as Cargo renders it.
    pub version: String,
    /// Cargo's source repr; `None` for local packages.
    pub source: Option<String>,
    pub manifest_path: String,
    pub targets: Vec<Target>,
}

/// A node of the resolved dependency graph: a package and its enabled
/// features.
#[derive(Clone, Debug)]
pub struct Node {
    pub id: String,
    pub features: Vec<String>,
}

/// The packages Cargo actually resolved for a workspace.
pub struct CargoUniverse {
    packages: Vec<Package>,
    member_ids: Vec<String>,
    workspace_root: String,
    target_directory: String,
    resolve: Option<Vec<Node>>,
}

/// The index of the last package with id `id`, if any (a later package
/// with the same id shadows an earlier one).
pub open spec fn last_with_id(pkgs: Seq<Package>, id: Seq<char>) -> Option<int>
    decreases pkgs.len(),
{
    if pkgs.len() == 0 {
        None
    } else if pkgs.last().id@ == id {
        Some(pkgs.len() - 1)
    } else {
        last_with_id(pkgs.drop_last(), id)
    }
}

/// The index of the first package named `name` at version `version`.
pub open spec fn first_with_version(pkgs: Seq<Package>, name: Seq<char>, version: Seq<char>) -> Option<
    int,
>
    decreases pkgs.len(),
{
    if pkgs.len() == 0 {
        None
    } else {
        match first_with_version(pkgs.drop_last(), name, version) {
            Some(i) => Some(i),
            None => if pkgs.last().name@ == name && pkgs.last().version@ == version {
                Some(pkgs.len() - 1)
            } else {
                None
            },
        }
    }
}

/// The indices of the packages named `name`, in graph order.
pub open spec fn indices_named(pkgs: Seq<Package>, name: Seq<char>) -> Seq<int>
    decreases pkgs.len(),
{
    if pkgs.len() == 0 {
        Seq::empty()
    } else if pkgs.last().name@ == name {
        indices_named(pkgs.drop_last(), name).push(pkgs.len() - 1)
    } else {
        indices_named(pkgs.drop_last(), name)
    }
}

/// The index of the first `@` of `s`.
pub open spec fn first_at(s: Seq<char>) -> Option<int>
    decreases s.len(),
{
    if s.len() == 0 {
        None
    } else {
        match first_at(s.drop_last()) {
            Some(i) => Some(i),
            None => if s.last() == '@' {
                Some(s.len() - 1)
            } else {
                None
            },
        }
    }
}

/// The message naming an ambiguous bare package name.
pub open spec fn ambiguous_message(spec: Seq<char>, versions: Seq<Seq<char>>) -> Seq<char> {
    spec + " is ambiguous (versions in graph: "@ + join(versions, ", "@) + "); use name@version"@
}

/// How a package spec resolves: `Ok(i)` for the package at index `i`,
/// `Err(m)` for a `PackageNotFound` error carrying `m`.
pub open spec fn resolve_spec_result(pkgs: Seq<Package>, spec: Seq<char>) -> Result<int, Seq<char>> {
    match first_at(spec) {
        Some(k) => match first_with_version(
            pkgs,
            spec.subrange(0, k),
            spec.subrange(k + 1, spec.len() as int),
        ) {
            Some(i) => Ok(i),
            None => Err(spec),
        },
        None => {
            let found = indices_named(pkgs, spec);
            if found.len() == 0 {
                Err(spec)
            } else if found.len() == 1 {
                Ok(found[0])
            } else {
                Err(ambiguous_message(spec, found.map_values(|i: int| pkgs[i].version@)))
            }
        },
    }
}

/// The members of `ids` that name a package, as the packages they name.
pub open spec fn members_of(pkgs: Seq<Package>, ids: Seq<String>) -> Seq<Package>
    decreases ids.len(),
{
    if ids.len() == 0 {
        Seq::empty()
    } else {
        let rest = members_of(pkgs, ids.drop_last());
        match last_with_id(pkgs, ids.last()@) {
            Some(i) => rest.push(pkgs[i]),
            None => rest,
        }
    }
}

/// The index of the first graph node for `id`.
pub open spec fn first_node(nodes: Seq<Node>, id: Seq<char>) -> Option<int>
    decreases nodes.len(),
{
    if nodes.len() == 0 {
        None
    } else {
        match first_node(nodes.drop_last(), id) {
            Some(i) => Some(i),
            None => if nodes.last().id@ == id {
                Some(nodes.len() - 1)
            } else {
                None
            },
        }
    }
}

/// How a package with this membership and source entered the graph.
pub open spec fn origin_spec(is_member: bool, source: Option<Seq<char>>) -> Origin {
    if is_member {
        Origin::Workspace
    } else {
        match source {
            None => Origin::Path,
            Some(repr) => if starts_with(repr, "git+"@) {
                Origin::Git
            } else {
                Origin::Registry
            },
        }
    }
}

/// The bytes a universe fingerprint hashes: the workspace root, then every
/// package id (in sorted order) followed by the unit separator.
pub open spec fn fingerprint_bytes(root: Seq<char>, ids: Seq<Seq<char>>) -> Seq<u8>
    decreases ids.len(),
{
    if ids.len() == 0 {
        encode_utf8(root)
    } else {
        fingerprint_bytes(root, ids.drop_last()) + encode_utf8(ids.last()) + seq![0x1fu8]
    }
}

impl CargoUniverse {
    /// A universe from the values cargo metadata reported: the packages, the
    /// workspace member ids, the workspace root and target directories, and
    /// the resolved graph (absent when cargo ran with `--no-deps`).
    pub fn new(
        packages: Vec<Package>,
        member_ids: Vec<String>,
        workspace_root: String,
        target_directory: String,
        resolve: Option<Vec<Node>>,
    ) -> (r: CargoUniverse)
        ensures
            r.packages_spec() == packages@,
            r.member_ids_spec() == member_ids@,
            r.workspace_root_spec() == workspace_root@,
            r.target_directory_spec() == target_directory@,
            r.nodes_spec() == match resolve {
                Some(nodes) => Some(nodes@),
                None => None,
            },
    {
        CargoUniverse { packages, member_ids, workspace_root, target_directory, resolve }
    }

    pub closed spec fn packages_spec(&self) -> Seq<Package> {
        self.packages@
    }

    pub closed spec fn member_ids_spec(&self) -> Seq<String> {
        self.member_ids@
    }

    pub closed spec fn workspace_root_spec(&self) -> Seq<char> {
        self.workspace_root@
    }

    pub closed spec fn target_directory_spec(&self) -> Seq<char> {
        self.target_directory@
    }

    pub closed spec fn nodes_spec(&self) -> Option<Seq<Node>> {
        match self.resolve {
            Some(nodes) => Some(nodes@),
            None => None,
        }
    }

    /// All resolved packages.
    pub fn packages(&self) -> (r: &Vec<Package>)
        ensures
            r@ == self.packages_spec(),
    {
        &self.packages
    }

    /// Number of resolved packages.
    pub fn package_count(&self) -> (r: usize)
        ensures
            r == self.packages_spec().len(),
    {
        self.packages.len()
    }

    /// Workspace root directory.
    pub fn workspace_root(&self) -> (r: &str)
        ensures
            r@ == self.workspace_root_spec(),
    {
        self.workspace_root.as_str()
    }

    /// Workspace target directory.
    pub fn target_directory(&self) -> (r: &str)
        ensures
            r@ == self.target_directory_spec(),
    {
        self.target_directory.as_str()
    }

    /// Looks a package up by Cargo's opaque id (the last package listed
    /// with that id, as an id-keyed map built in graph order holds it).
    pub fn get(&self, id: &str) -> (r: Option<&Package>)
        ensures
            match last_with_id(self.packages_spec(), id@) {
                Some(i) => r == Some(&self.packages_spec()[i]),
                None => r is None,
            },
    {
        let mut i: usize = self.packages.len();
        assert(self.packages@.take(i as int) =~= self.packages@);
        while i > 0
            invariant
                i <= self.packages@.len(),
                last_with_id(self.packages@, id@) == last_with_id(
                    self.packages@.take(i as int),
                    id@,
                ),
            decreases i,
        {
            assert(self.packages@.take(i as int).drop_last() =~= self.packages@.take(i - 1));
            if str_eq(self.packages[i - 1].id.as_str(), id) {
                return Some(&self.packages[i - 1]);
            }
            i = i - 1;
        }
        None
    }

    /// Deterministically locates a package by `name@version` or bare name.
    ///
    /// `name@version` (split at the first `@`) selects the first package
    /// with that name and rendered version. A bare name must resolve
    /// uniquely; an ambiguous bare name (two versions in one graph) is an
    /// error listing the versions, and an absent one is an error naming it.
    pub fn resolve_spec(&self, spec: &str) -> (r: Result<&Package, IndexError>)
        ensures
            match resolve_spec_result(self.packages_spec(), spec@) {
                Ok(i) => r == Ok::<&Package, IndexError>(&self.packages_spec()[i]),
                Err(m) => r matches Err(IndexError::PackageNotFound { spec: s }) && s@ == m,
            },
    {
        let cs = chars_of(spec);
        let mut k: usize = 0;
        while k < cs.len() && cs[k] != '@'
            invariant
                cs@ == spec@,
                k <= cs@.len(),
                first_at(cs@.take(k as int)) is None,
            decreases cs@.len() - k,
        {
            assert(cs@.take(k + 1).drop_last() =~= cs@.take(k as int));
            k = k + 1;
        }
        proof {
            lemma_first_at_prefix(cs@, k as int);
        }
        if k < cs.len() {
            let name = string_of(&cs, 0, k);
            let version = string_of(&cs, k + 1, cs.len());
            assert(first_at(spec@) == Some(k as int));
            let mut i: usize = 0;
            while i < self.packages.len()
                invariant
                    first_at(spec@) == Some(k as int),
                    k < spec@.len(),
                    name@ == spec@.subrange(0, k as int),
                    version@ == spec@.subrange(k + 1, spec@.len() as int),
                    i <= self.packages@.len(),
                    first_with_version(self.packages@.take(i as int), name@, version@) is None,
                decreases self.packages@.len() - i,
            {
                assert(self.packages@.take(i + 1).drop_last() =~= self.packages@.take(i as int));
                if str_eq(self.packages[i].name.as_str(), name.as_str()) && str_eq(
                    self.packages[i].version.as_str(),
                    version.as_str(),
                ) {
                    proof {
                        lemma_first_with_version_prefix(
                            self.packages@,
                            name@,
                            version@,
                            i as int,
                        );
                        assert(first_at(spec@) == Some(k as int));
                        assert(name@ == spec@.subrange(0, k as int));
                        assert(version@ == spec@.subrange(k + 1, spec@.len() as int));
                        assert(resolve_spec_result(self.packages@, spec@) == Ok::<int, Seq<char>>(i as int));
                    }
                    return Ok(&self.packages[i]);
                }
                i = i + 1;
            }
            assert(self.packages@.take(i as int) =~= self.packages@);
            return Err(IndexError::PackageNotFound { spec: spec.to_owned() });
        }
        let mut found: Vec<usize> = Vec::new();
        let mut i: usize = 0;
        while i < self.packages.len()
            invariant
                i <= self.packages@.len(),
                found@.map_values(|j: usize| j as int) == indices_named(
                    self.packages@.take(i as int),
                    spec@,
                ),
                forall|j: int| 0 <= j < found@.len() ==> #[trigger] found@[j] < i,
            decreases self.packages@.len() - i,
        {
            assert(self.packages@.take(i + 1).drop_last() =~= self.packages@.take(i as int));
            if str_eq(self.packages[i].name.as_str(), spec) {
                found.push(i);
                assert(found@.map_values(|j: usize| j as int) =~= indices_named(
                    self.packages@.take(i as int),
                    spec@,
                ).push(i as int));
            }
            i = i + 1;
        }
        assert(self.packages@.take(i as int) =~= self.packages@);
        let ghost idx = found@.map_values(|j: usize| j as int);
        if found.len() == 0 {
            Err(IndexError::PackageNotFound { spec: spec.to_owned() })
        } else if found.len() == 1 {
            assert(idx[0] == found@[0] as int);
            Ok(&self.packages[found[0]])
        } else {
            let mut versions: Vec<String> = Vec::new();
            let mut j: usize = 0;
            while j < found.len()
                invariant
                    j <= found@.len(),
                    idx == found@.map_values(|x: usize| x as int),
                    forall|x: int| 0 <= x < found@.len() ==> #[trigger] found@[x] < self.packages@.len(),
                    versions@.len() == j,
                    forall|x: int| 0 <= x < j ==> #[trigger] versions@[x]@ == self.packages@[idx[x]].version@,
                decreases found@.len() - j,
            {
                versions.push(self.packages[found[j]].version.clone());
                j = j + 1;
            }
            assert(views(versions@) =~= idx.map_values(|x: int| self.packages@[x].version@));
            let mut msg = spec.to_owned();
            push_str(&mut msg, " is ambiguous (versions in graph: ");
            let joined = crate::text::join_strings(&versions, ", ");
            push_str(&mut msg, joined.as_str());
            push_str(&mut msg, "); use name@version");
            Err(IndexError::PackageNotFound { spec: msg })
        }
    }

    /// The workspace members, as the packages they name (members that name
    /// no package are left out).
    pub fn workspace_members(&self) -> (r: Vec<&Package>)
        ensures
            r@.map_values(|p: &Package| *p) == members_of(self.packages_spec(), self.member_ids_spec()),
    {
        let mut out: Vec<&Package> = Vec::new();
        let mut i: usize = 0;
        while i < self.member_ids.len()
            invariant
                i <= self.member_ids@.len(),
                out@.map_values(|p: &Package| *p) == members_of(
                    self.packages@,
                    self.member_ids@.take(i as int),
                ),
            decreases self.member_ids@.len() - i,
        {
            assert(self.member_ids@.take(i + 1).drop_last() =~= self.member_ids@.take(i as int));
            match self.get(self.member_ids[i].as_str()) {
                Some(p) => {
                    out.push(p);
                    assert(out@.map_values(|p: &Package| *p) =~= members_of(
                        self.packages@,
                        self.member_ids@.take(i as int),
                    ).push(*p));
                },
                None => {},
            }
            i = i + 1;
        }
        assert(self.member_ids@.take(i as int) =~= self.member_ids@);
        out
    }

    /// Whether `id` is a workspace member.
    pub fn is_workspace_member(&self, id: &str) -> (r: bool)
        ensures
            r == exists|i: int|
                0 <= i < self.member_ids_spec().len() && #[trigger] self.member_ids_spec()[i]@
                    == id@,
    {
        let mut i: usize = 0;
        while i < self.member_ids.len()
            invariant
                i <= self.member_ids@.len(),
                forall|j: int| 0 <= j < i ==> #[trigger] self.member_ids@[j]@ != id@,
            decreases self.member_ids@.len() - i,
        {
            if str_eq(self.member_ids[i].as_str(), id) {
                assert(self.member_ids_spec()[i as int]@ == id@);
                return true;
            }
            i = i + 1;
        }
        false
    }

    /// Classifies how the package entered the graph: a member is
    /// `Workspace`; otherwise no source means `Path`, a `git+` source `Git`,
    /// and any other source `Registry`.
    pub fn origin(&self, pkg: &Package) -> (r: Origin)
        ensures
            r == origin_spec(
                exists|i: int|
                    0 <= i < self.member_ids_spec().len() && #[trigger] self.member_ids_spec()[i]@
                        == pkg.id@,
                opt_string_view(pkg.source),
            ),
    {
        if self.is_workspace_member(pkg.id.as_str()) {
            return Origin::Workspace;
        }
        match &pkg.source {
            None => Origin::Path,
            Some(repr) => if str_starts_with(repr.as_str(), "git+") {
                Origin::Git
            } else {
                Origin::Registry
            },
        }
    }

    /// The normalized identity of a package.
    pub fn identity(&self, pkg: &Package) -> (r: PackageIdentity)
        ensures
            is_identity_of(r, *pkg),
    {
        identity_from_package(pkg)
    }

    /// Resolved-graph node for a package, or `None` when cargo ran with
    /// `--no-deps` or the graph has no node for it.
    pub fn node(&self, id: &str) -> (r: Option<&Node>)
        ensures
            match self.nodes_spec() {
                None => r is None,
                Some(nodes) => match first_node(nodes, id@) {
                    Some(i) => r == Some(&nodes[i]),
                    None => r is None,
                },
            },
    {
        match &self.resolve {
            None => None,
            Some(nodes) => {
                assert(self.nodes_spec() == Some(nodes@));
                let mut i: usize = 0;
                while i < nodes.len()
                    invariant
                        self.nodes_spec() == Some(nodes@),
                        i <= nodes@.len(),
                        first_node(nodes@.take(i as int), id@) is None,
                    decreases nodes@.len() - i,
                {
                    assert(nodes@.take(i + 1).drop_last() =~= nodes@.take(i as int));
                    if str_eq(nodes[i].id.as_str(), id) {
                        proof {
                            lemma_first_node_prefix(nodes@, id@, i as int);
                            assert(self.nodes_spec() == Some(nodes@));
                        }
                        return Some(&nodes[i]);
                    }
                    i = i + 1;
                }
                assert(nodes@.take(i as int) =~= nodes@);
                None
            },
        }
    }

    /// Enabled features of a package in this graph (resolved view); empty
    /// when the graph has no node for it.
    pub fn enabled_features(&self, id: &str) -> (r: Vec<String>)
        ensures
            views(r@) == match self.nodes_spec() {
                Some(nodes) => match first_node(nodes, id@) {
                    Some(i) => views(nodes[i].features@),
                    None => Seq::empty(),
                },
                None => Seq::empty(),
            },
    {
        match self.node(id) {
            Some(n) => clone_strings(&n.features),
            None => {
                let v: Vec<String> = Vec::new();
                assert(views(v@) =~= Seq::<Seq<char>>::empty());
                v
            },
        }
    }

    /// Path of the workspace `Cargo.lock`.
    pub fn lock_path(&self) -> (r: String)
        ensures
            r@ == crate::paths::join(self.workspace_root_spec(), "Cargo.lock"@),
    {
        join_path(self.workspace_root.as_str(), "Cargo.lock")
    }
}

/// A copy of a vector of strings.
pub fn clone_strings(v: &Vec<String>) -> (r: Vec<String>)
    ensures
        views(r@) == views(v@),
{
    let mut out: Vec<String> = Vec::new();
    let mut i: usize = 0;
    while i < v.len()
        invariant
            i <= v@.len(),
            out@.len() == i,
            forall|j: int| 0 <= j < i ==> #[trigger] out@[j]@ == v@[j]@,
        decreases v@.len() - i,
    {
        out.push(v[i].clone());
        i = i + 1;
    }
    assert(views(out@) =~= views(v@));
    out
}

pub proof fn lemma_first_at_prefix(s: Seq<char>, k: int)
    requires
        0 <= k <= s.len(),
        first_at(s.take(k)) is None,
        k < s.len() ==> s[k] == '@',
    ensures
        first_at(s) == if k < s.len() {
            Some(k)
        } else {
            None::<int>
        },
    decreases s.len() - k,
{
    if k == s.len() {
        assert(s.take(k) =~= s);
    } else {
        lemma_first_at_extend(s, k);
    }
}

proof fn lemma_first_at_extend(s: Seq<char>, k: int)
    requires
        0 <= k < s.len(),
        first_at(s.take(k)) is None,
        s[k] == '@',
    ensures
        first_at(s) == Some(k),
    decreases s.len(),
{
    if s.len() == k + 1 {
        assert(s.drop_last() =~= s.take(k));
    } else {
        assert(s.drop_last().take(k) =~= s.take(k));
        lemma_first_at_extend(s.drop_last(), k);
    }
}

proof fn lemma_first_with_version_prefix(pkgs: Seq<Package>, name: Seq<char>, version: Seq<char>, i: int)
    requires
        0 <= i < pkgs.len(),
        first_with_version(pkgs.take(i), name, version) is None,
        pkgs[i].name@ == name && pkgs[i].version@ == version,
    ensures
        first_with_version(pkgs, name, version) == Some(i),
    decreases pkgs.len(),
{
    if pkgs.len() == i + 1 {
        assert(pkgs.drop_last() =~= pkgs.take(i));
    } else {
        assert(pkgs.drop_last().take(i) =~= pkgs.take(i));
        lemma_first_with_version_prefix(pkgs.drop_last(), name, version, i);
    }
}

proof fn lemma_first_node_prefix(nodes: Seq<Node>, id: Seq<char>, i: int)
    requires
        0 <= i < nodes.len(),
        first_node(nodes.take(i), id) is None,
        nodes[i].id@ == id,
    ensures
        first_node(nodes, id) == Some(i),
    decreases nodes.len(),
{
    if nodes.len() == i + 1 {
        assert(nodes.drop_last() =~= nodes.take(i));
    } else {
        assert(nodes.drop_last().take(i) =~= nodes.take(i));
        lemma_first_node_prefix(nodes.drop_last(), id, i);
    }
}

/// `r` is the normalized identity of `pkg`.
pub open spec fn is_identity_of(r: PackageIdentity, pkg: Package) -> bool {
    &&& r.package_id@ == pkg.id@
    &&& r.name@ == pkg.name@
    &&& r.version@ == pkg.version@
    &&& opt_string_view(r.source) == opt_string_view(pkg.source)
    &&& r.manifest_path@ == pkg.manifest_path@
}

/// Converts a package into the normalized identity.
pub fn identity_from_package(pkg: &Package) -> (r: PackageIdentity)
    ensures
        is_identity_of(r, *pkg),
{
    PackageIdentity {
        package_id: pkg.id.clone(),
        name: pkg.name.clone(),
        version: pkg.version.clone(),
        source: match &pkg.source {
            Some(s) => Some(s.clone()),
            None => None,
        },
        manifest_path: pkg.manifest_path.clone(),
    }
}

/// The ids of some packages.
pub open spec fn package_ids(pkgs: Seq<Package>) -> Seq<Seq<char>> {
    pkgs.map_values(|p: Package| p.id@)
}

/// The fingerprint of a universe with workspace root `root` and packages
/// `pkgs`: the root and the package ids in ascending order (each followed
/// by a unit separator) hashed with SHA-256; the first 16 bytes of the
/// digest in hexadecimal.
pub open spec fn fingerprint_spec(root: Seq<char>, pkgs: Seq<Package>) -> Seq<char> {
    hex(sha256(fingerprint_bytes(root, sorted_texts(package_ids(pkgs)))).take(16))
}

/// The content hash of some bytes: the first 16 bytes of their SHA-256
/// digest in hexadecimal.
pub fn hash_bytes(bytes: &[u8]) -> (r: String)
    ensures
        r@ == hex(sha256(bytes@).take(16)),
{
    let digest = sha256_digest(bytes);
    hex_prefix(&digest, 16)
}

impl CargoUniverse {
    /// Stable fingerprint of the resolved universe itself: package ids and
    /// workspace root. Two fingerprints match only if the same universe was
    /// resolved.
    pub fn fingerprint(&self) -> (r: String)
        ensures
            r@ == fingerprint_spec(self.workspace_root_spec(), self.packages_spec()),
    {
        let ghost pkgs = self.packages@;
        let mut ids: Vec<String> = Vec::new();
        let mut i: usize = 0;
        while i < self.packages.len()
            invariant
                i <= pkgs.len(),
                pkgs == self.packages@,
                strings_view(ids@) =~= package_ids(pkgs.take(i as int)),
            decreases pkgs.len() - i,
        {
            let ghost before = strings_view(ids@);
            let id = self.packages[i].id.clone();
            let ghost idv = id@;
            ids.push(id);
            assert(strings_view(ids@) =~= before.push(idv));
            assert(package_ids(pkgs.take(i + 1)) =~= package_ids(pkgs.take(i as int)).push(
                pkgs[i as int].id@,
            ));
            i = i + 1;
        }
        assert(pkgs.take(i as int) =~= pkgs);
        let sorted = sort_texts(ids);
        let ghost sv = strings_view(sorted@);
        let mut bytes: Vec<u8> = Vec::new();
        extend_bytes(&mut bytes, self.workspace_root.as_str().as_bytes());
        let mut j: usize = 0;
        assert(sv.take(0) =~= Seq::<Seq<char>>::empty());
        while j < sorted.len()
            invariant
                j <= sorted@.len(),
                sv == strings_view(sorted@),
                bytes@ == fingerprint_bytes(self.workspace_root@, sv.take(j as int)),
            decreases sorted@.len() - j,
        {
            assert(sv.take(j + 1).drop_last() =~= sv.take(j as int));
            assert(sv.take(j + 1).last() == sorted@[j as int]@);
            extend_bytes(&mut bytes, sorted[j].as_str().as_bytes());
            bytes.push(0x1fu8);
            j = j + 1;
        }
        assert(sv.take(j as int) =~= sv);
        let digest = sha256_digest(bytes.as_slice());
        hex_prefix(&digest, 16)
    }
}

/// The fingerprint of a universe does not depend on the order in which
/// cargo lists its packages: the same root and the same package ids give
/// the same fingerprint.
pub proof fn law_fingerprint_ignores_package_order(
    root: Seq<char>,
    a: Seq<Package>,
    b: Seq<Package>,
)
    requires
        package_ids(a).to_multiset() == package_ids(b).to_multiset(),
    ensures
        fingerprint_spec(root, a) == fingerprint_spec(root, b),
{
    crate::text::law_sorted_texts_sorted_permutation(package_ids(a));
    crate::text::law_sorted_texts_sorted_permutation(package_ids(b));
    crate::text::lemma_sorted_unique(sorted_texts(package_ids(a)), sorted_texts(package_ids(b)));
}

/// What `semver::Version`'s order says of two version texts that both
/// parse as versions: whether `a` orders at or before `b`; `None` when
/// either text does not parse.
pub uninterp spec fn version_le(a: Seq<char>, b: Seq<char>) -> Option<bool>;

/// Parses both texts with `semver::Version::parse` and compares them with
/// `semver::Version`'s order (`<=`); `None` when either fails to parse.
#[verifier::external_body]
fn compare_versions(a: &str, b: &str) -> (r: Option<bool>)
    ensures
        r == version_le(a@, b@),
{
    match (cargo_metadata::semver::Version::parse(a), cargo_metadata::semver::Version::parse(b)) {
        (Ok(x), Ok(y)) => Some(x <= y),
        _ => None,
    }
}

/// The order that [`CargoUniverse::versions_of`] sorts by: `semver`'s
/// order where both texts parse as versions, else the texts' own order.
pub open spec fn version_order(a: Seq<char>, b: Seq<char>) -> bool {
    match version_le(a, b) {
        Some(le) => le,
        None => text_le(a, b),
    }
}

/// Whether version text `a` orders at or before `b` ([`version_order`]).
fn version_order_exec(a: &str, b: &str) -> (r: bool)
    ensures
        r == version_order(a@, b@),
{
    match compare_versions(a, b) {
        Some(le) => le,
        None => text_le_str(a, b),
    }
}

/// `x` inserted into `s` after the trailing packages whose version orders
/// after it.
pub open spec fn insert_by_version(s: Seq<Package>, x: Package) -> Seq<Package>
    decreases s.len(),
{
    if s.len() == 0 {
        seq![x]
    } else if version_order(s.last().version@, x.version@) {
        s.push(x)
    } else {
        insert_by_version(s.drop_last(), x).push(s.last())
    }
}

/// The packages of `s` sorted by version (a stable insertion sort).
pub open spec fn sorted_by_version(s: Seq<Package>) -> Seq<Package>
    decreases s.len(),
{
    if s.len() == 0 {
        Seq::empty()
    } else {
        insert_by_version(sorted_by_version(s.drop_last()), s.last())
    }
}

/// The packages named `name`, in graph order.
pub open spec fn packages_named(pkgs: Seq<Package>, name: Seq<char>) -> Seq<Package> {
    pkgs.filter(|p: Package| p.name@ == name)
}

impl CargoUniverse {
    /// All versions of a package name present in the resolved graph, in
    /// version order.
    pub fn versions_of(&self, name: &str) -> (r: Vec<&Package>)
        ensures
            r@.map_values(|p: &Package| *p) == sorted_by_version(
                packages_named(self.packages_spec(), name@),
            ),
    {
        let ghost pkgs = self.packages@;
        let mut found: Vec<&Package> = Vec::new();
        let mut i: usize = 0;
        while i < self.packages.len()
            invariant
                i <= pkgs.len(),
                pkgs == self.packages@,
                found@.map_values(|p: &Package| *p) == sorted_by_version(
                    packages_named(pkgs.take(i as int), name@),
                ),
            decreases pkgs.len() - i,
        {
            reveal(Seq::filter);
            assert(pkgs.take(i + 1).drop_last() =~= pkgs.take(i as int));
            let p = &self.packages[i];
            if str_eq(p.name.as_str(), name) {
                assert(packages_named(pkgs.take(i + 1), name@) == packages_named(
                    pkgs.take(i as int),
                    name@,
                ).push(*p));
                let ghost named = packages_named(pkgs.take(i as int), name@);
                assert(named.push(*p).drop_last() =~= named);
                assert(named.push(*p).last() == *p);
                insert_package(&mut found, p);
            } else {
                assert(packages_named(pkgs.take(i + 1), name@) == packages_named(
                    pkgs.take(i as int),
                    name@,
                ));
            }
            i = i + 1;
        }
        assert(pkgs.take(i as int) =~= pkgs);
        found
    }
}

/// Inserts `x` into the version-sorted `v`.
fn insert_package<'a>(v: &mut Vec<&'a Package>, x: &'a Package)
    ensures
        final(v)@.map_values(|p: &Package| *p) == insert_by_version(
            old(v)@.map_values(|p: &Package| *p),
            *x,
        ),
{
    let ghost s = v@.map_values(|p: &Package| *p);
    let mut j: usize = v.len();
    assert(s.take(j as int) =~= s);
    while j > 0 && !version_order_exec(v[j - 1].version.as_str(), x.version.as_str())
        invariant
            j <= v@.len(),
            s == v@.map_values(|p: &Package| *p),
            insert_by_version(s, *x) == insert_by_version(s.take(j as int), *x) + s.skip(j as int),
        decreases j,
    {
        let ghost t = s.take(j as int);
        assert(t.drop_last() =~= s.take(j - 1));
        assert(t.last() == s[j - 1]);
        assert(insert_by_version(s.take(j - 1), *x).push(s[j - 1]) + s.skip(j as int)
            =~= insert_by_version(s.take(j - 1), *x) + s.skip(j - 1));
        j = j - 1;
    }
    proof {
        if j > 0 {
            assert(s.take(j as int).last() == s[j - 1]);
        }
    }
    v.insert(j, x);
    assert(v@.map_values(|p: &Package| *p) =~= insert_by_version(s, *x));
}


/// `first_at` finds the first `@`: `Some(k)` when `s[k]` is the first `@`
/// of `s`, `None` when `s` has none.
pub proof fn lemma_first_at_spec(s: Seq<char>)
    ensures
        match first_at(s) {
            Some(k) => 0 <= k < s.len() && s[k] == '@' && !s.take(k).contains('@'),
            None => !s.contains('@'),
        },
    decreases s.len(),
{
    if s.len() > 0 {
        let d = s.drop_last();
        lemma_first_at_spec(d);
        match first_at(d) {
            Some(i) => {
                assert(s.take(i) =~= d.take(i));
            },
            None => {
                if s.last() == '@' {
                    assert(s.take(s.len() - 1) =~= d);
                } else {
                    assert forall|j: int| 0 <= j < s.len() implies s[j] != '@' by {
                        if j < s.len() - 1 {
                            assert(s[j] == d[j]);
                        }
                    }
                }
            },
        }
    }
}

/// A spec written `name@version` with an `@`-free name splits at its `@`.
pub proof fn lemma_first_at_of_versioned(n: Seq<char>, v: Seq<char>)
    requires
        !n.contains('@'),
    ensures
        first_at(n + "@"@ + v) == Some(n.len() as int),
        (n + "@"@ + v).subrange(0, n.len() as int) == n,
        (n + "@"@ + v).subrange(n.len() + 1int, (n + "@"@ + v).len() as int) == v,
{
    reveal_strlit("@");
    let s = n + "@"@ + v;
    lemma_first_at_spec(s);
    assert(s[n.len() as int] == '@');
    match first_at(s) {
        Some(k) => {
            if k < n.len() {
                assert(s[k] == n[k]);
            } else if k > n.len() {
                assert(s.take(k)[n.len() as int] == '@');
            }
        },
        None => {},
    }
    assert(s.subrange(0, n.len() as int) =~= n);
    assert(s.subrange(n.len() + 1int, s.len() as int) =~= v);
}

proof fn lemma_first_with_version_found(pkgs: Seq<Package>, name: Seq<char>, version: Seq<char>)
    ensures
        first_with_version(pkgs, name, version) matches Some(i) ==> 0 <= i < pkgs.len()
            && pkgs[i].name@ == name && pkgs[i].version@ == version,
    decreases pkgs.len(),
{
    if pkgs.len() > 0 {
        lemma_first_with_version_found(pkgs.drop_last(), name, version);
    }
}

proof fn lemma_indices_named(pkgs: Seq<Package>, name: Seq<char>)
    ensures
        forall|m: int|
            0 <= m < indices_named(pkgs, name).len() ==> 0 <= #[trigger] indices_named(pkgs, name)[m]
                < pkgs.len() && pkgs[indices_named(pkgs, name)[m]].name@ == name,
        forall|k: int|
            0 <= k < pkgs.len() && #[trigger] pkgs[k].name@ == name ==> indices_named(
                pkgs,
                name,
            ).contains(k),
    decreases pkgs.len(),
{
    if pkgs.len() > 0 {
        let d = pkgs.drop_last();
        lemma_indices_named(d, name);
        let r = indices_named(pkgs, name);
        let rd = indices_named(d, name);
        assert forall|m: int| 0 <= m < r.len() implies 0 <= #[trigger] r[m] < pkgs.len()
            && pkgs[r[m]].name@ == name by {
            if m < rd.len() {
                assert(r[m] == rd[m]);
                assert(pkgs[rd[m]] == d[rd[m]]);
            }
        }
        assert forall|k: int| 0 <= k < pkgs.len() && #[trigger] pkgs[k].name@ == name implies r.contains(k) by {
            if k < pkgs.len() - 1 {
                assert(d[k] == pkgs[k]);
                assert(rd.contains(k));
                let m = choose|m: int| 0 <= m < rd.len() && rd[m] == k;
                assert(r[m] == k);
            } else {
                assert(r[r.len() - 1] == k);
            }
        }
    }
}

proof fn lemma_first_with_version_exists(pkgs: Seq<Package>, name: Seq<char>, version: Seq<char>, i: int)
    requires
        0 <= i < pkgs.len(),
        pkgs[i].name@ == name && pkgs[i].version@ == version,
    ensures
        first_with_version(pkgs, name, version) is Some,
    decreases pkgs.len(),
{
    if i < pkgs.len() - 1 {
        assert(pkgs.drop_last()[i] == pkgs[i]);
        lemma_first_with_version_exists(pkgs.drop_last(), name, version, i);
    }
}

proof fn lemma_indices_named_increasing(pkgs: Seq<Package>, name: Seq<char>)
    ensures
        forall|a: int, b: int|
            0 <= a < b < indices_named(pkgs, name).len() ==> #[trigger] indices_named(pkgs, name)[a]
                < #[trigger] indices_named(pkgs, name)[b],
    decreases pkgs.len(),
{
    if pkgs.len() > 0 {
        lemma_indices_named_increasing(pkgs.drop_last(), name);
        lemma_indices_named(pkgs.drop_last(), name);
    }
}

/// What a package spec resolves to. A spec written `name@version` (split at
/// its first `@`) resolves only to a package with exactly that name and
/// version; a bare name resolves only to a package of that name, and only
/// when no other package of the universe has that name: a bare name shared
/// by two or more packages is an error, never a package. When such a
/// package exists, the spec resolves.
pub proof fn law_resolve_spec_is_exact(pkgs: Seq<Package>, spec: Seq<char>)
    ensures
        resolve_spec_result(pkgs, spec) matches Ok(i) ==> 0 <= i < pkgs.len() && (match first_at(
            spec,
        ) {
            Some(k) => pkgs[i].name@ == spec.subrange(0, k) && pkgs[i].version@ == spec.subrange(
                k + 1,
                spec.len() as int,
            ),
            None => pkgs[i].name@ == spec && forall|j: int|
                0 <= j < pkgs.len() && j != i ==> #[trigger] pkgs[j].name@ != spec,
        }),
        !spec.contains('@') ==> (forall|i: int, j: int|
            0 <= i < j < pkgs.len() && #[trigger] pkgs[i].name@ == spec && #[trigger] pkgs[j].name@
                == spec ==> resolve_spec_result(pkgs, spec) is Err),
        !spec.contains('@') ==> (forall|i: int|
            0 <= i < pkgs.len() && #[trigger] pkgs[i].name@ == spec && (forall|j: int|
                0 <= j < pkgs.len() && j != i ==> pkgs[j].name@ != spec) ==> resolve_spec_result(
                pkgs,
                spec,
            ) == Ok::<int, Seq<char>>(i)),
        first_at(spec) matches Some(k) ==> (forall|i: int|
            0 <= i < pkgs.len() && #[trigger] pkgs[i].name@ == spec.subrange(0, k)
                && pkgs[i].version@ == spec.subrange(k + 1, spec.len() as int)
                ==> resolve_spec_result(pkgs, spec) is Ok),
{
    lemma_first_at_spec(spec);
    match first_at(spec) {
        Some(k) => {
            lemma_first_with_version_found(pkgs, spec.subrange(0, k), spec.subrange(k + 1, spec.len() as int));
            assert forall|i: int|
                0 <= i < pkgs.len() && #[trigger] pkgs[i].name@ == spec.subrange(0, k)
                    && pkgs[i].version@ == spec.subrange(k + 1, spec.len() as int)
                    implies resolve_spec_result(pkgs, spec) is Ok by {
                lemma_first_with_version_exists(
                    pkgs,
                    spec.subrange(0, k),
                    spec.subrange(k + 1, spec.len() as int),
                    i,
                );
            }
        },
        None => {
            lemma_indices_named(pkgs, spec);
            lemma_indices_named_increasing(pkgs, spec);
            assert forall|i: int|
                0 <= i < pkgs.len() && #[trigger] pkgs[i].name@ == spec && (forall|j: int|
                    0 <= j < pkgs.len() && j != i ==> pkgs[j].name@ != spec) implies resolve_spec_result(
                pkgs,
                spec,
            ) == Ok::<int, Seq<char>>(i) by {
                let found = indices_named(pkgs, spec);
                assert(found.contains(i));
                assert forall|m: int| 0 <= m < found.len() implies found[m] == i by {
                    assert(pkgs[found[m]].name@ == spec);
                }
                if found.len() >= 2 {
                    assert(found[0] < found[1]);
                }
            }
            let found = indices_named(pkgs, spec);
            if found.len() == 1 {
                assert forall|j: int| 0 <= j < pkgs.len() && j != found[0] implies #[trigger] pkgs[j].name@
                    != spec by {
                    if pkgs[j].name@ == spec {
                        assert(found.contains(j));
                    }
                }
            }
            assert forall|i: int, j: int|
                0 <= i < j < pkgs.len() && #[trigger] pkgs[i].name@ == spec && #[trigger] pkgs[j].name@
                    == spec implies resolve_spec_result(pkgs, spec) is Err by {
                assert(found.contains(i));
                assert(found.contains(j));
                if found.len() == 1 {
                    let a = choose|m: int| 0 <= m < found.len() && found[m] == i;
                    let b = choose|m: int| 0 <= m < found.len() && found[m] == j;
                    assert(a == 0 && b == 0);
                }
            }
        },
    }
}

/// How a package entered the graph, by what cargo reports of it: a
/// workspace member is `Workspace`; any other package without a source is
/// a local `Path` dependency; a `git+` source is `Git`; every other source
/// is a registry. The four are told apart by their names.
pub proof fn law_origin_classification(is_member: bool, source: Option<Seq<char>>)
    ensures
        (origin_spec(is_member, source) == Origin::Workspace) <==> is_member,
        (origin_spec(is_member, source) == Origin::Path) <==> (!is_member && source is None),
        (origin_spec(is_member, source) == Origin::Git) <==> (!is_member && (source matches Some(r)
            && starts_with(r, "git+"@))),
        (origin_spec(is_member, source) == Origin::Registry) <==> (!is_member && (
        source matches Some(r) && !starts_with(r, "git+"@))),
        origin_name(Origin::Path) == "path"@ && origin_name(Origin::Registry) == "registry"@
            && origin_name(Origin::Git) == "git"@ && origin_name(Origin::Workspace) == "workspace"@,
{
}

} // verus!
