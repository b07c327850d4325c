//! The package listing of a resolved universe: one row per package, in
//! (name, version) order, and its fixed-width table rendering.
use vstd::prelude::*;

use crate::cargo::{first_node, origin_name, origin_spec, CargoUniverse, Package};
use crate::model::views;
use crate::text::{
    chars_of, join, join_strings, lemma_text_le_antisym, lemma_text_le_total,
    lemma_text_le_trans, push_char, push_str, str_eq, text_le, text_le_str, to_owned,
};

verus! {

/// One row of the package listing.
pub struct PackageRow {
    pub name: String,
    pub version: String,
    /// `workspace`, `path`, `git` or `registry`.
    pub origin: String,
    /// Enabled features, comma-separated (empty when none).
    pub features: String,
    pub manifest_path: String,
    pub package_id: String,
}

/// The plain values of a row.
pub open spec fn row_view(r: PackageRow) -> (Seq<char>, Seq<char>, Seq<char>, Seq<char>, Seq<
    char,
>, Seq<char>) {
    (r.name@, r.version@, r.origin@, r.features@, r.manifest_path@, r.package_id@)
}

/// The views of some rows.
pub open spec fn rows_view(v: Seq<PackageRow>) -> Seq<
    (Seq<char>, Seq<char>, Seq<char>, Seq<char>, Seq<char>, Seq<char>),
> {
    v.map_values(|r: PackageRow| row_view(r))
}

/// Row `a` orders at or before row `b`: by name, then by version.
pub open spec fn row_le(
    a: (Seq<char>, Seq<char>, Seq<char>, Seq<char>, Seq<char>, Seq<char>),
    b: (Seq<char>, Seq<char>, Seq<char>, Seq<char>, Seq<char>, Seq<char>),
) -> bool {
    if a.0 == b.0 {
        text_le(a.1, b.1)
    } else {
        text_le(a.0, b.0)
    }
}

/// `x` inserted into `s` after the trailing rows that order after it.
pub open spec fn insert_row(
    s: Seq<(Seq<char>, Seq<char>, Seq<char>, Seq<char>, Seq<char>, Seq<char>)>,
    x: (Seq<char>, Seq<char>, Seq<char>, Seq<char>, Seq<char>, Seq<char>),
) -> Seq<(Seq<char>, Seq<char>, Seq<char>, Seq<char>, Seq<char>, Seq<char>)>
    decreases s.len(),
{
    if s.len() == 0 {
        seq![x]
    } else if row_le(s.last(), x) {
        s.push(x)
    } else {
        insert_row(s.drop_last(), x).push(s.last())
    }
}

/// The rows of `s` sorted by (name, version), rows that order equally
/// keeping their order.
pub open spec fn sorted_rows(s: Seq<(Seq<char>, Seq<char>, Seq<char>, Seq<char>, Seq<char>, Seq<char>)>) -> Seq<
    (Seq<char>, Seq<char>, Seq<char>, Seq<char>, Seq<char>, Seq<char>),
>
    decreases s.len(),
{
    if s.len() == 0 {
        Seq::empty()
    } else {
        insert_row(sorted_rows(s.drop_last()), s.last())
    }
}

/// The row of a package: identity, origin, enabled features joined by
/// commas.
pub open spec fn package_row(u: CargoUniverse, p: Package) -> (
    Seq<char>,
    Seq<char>,
    Seq<char>,
    Seq<char>,
    Seq<char>,
    Seq<char>,
) {
    let member = exists|i: int|
        0 <= i < u.member_ids_spec().len() && #[trigger] u.member_ids_spec()[i]@ == p.id@;
    let features = match u.nodes_spec() {
        Some(nodes) => match first_node(nodes, p.id@) {
            Some(i) => views(nodes[i].features@),
            None => Seq::empty(),
        },
        None => Seq::empty(),
    };
    (
        p.name@,
        p.version@,
        origin_name(origin_spec(member, crate::text::opt_string_view(p.source))),
        join(features, ","@),
        p.manifest_path@,
        p.id@,
    )
}

/// The rows of some packages, in the packages' order.
pub open spec fn package_rows_spec(u: CargoUniverse, pkgs: Seq<Package>) -> Seq<
    (Seq<char>, Seq<char>, Seq<char>, Seq<char>, Seq<char>, Seq<char>),
> {
    pkgs.map_values(|p: Package| package_row(u, p))
}

/// Whether row `a` orders at or before row `b`.
fn row_le_exec(a: &PackageRow, b: &PackageRow) -> (r: bool)
    ensures
        r == row_le(row_view(*a), row_view(*b)),
{
    if str_eq(a.name.as_str(), b.name.as_str()) {
        text_le_str(a.version.as_str(), b.version.as_str())
    } else {
        text_le_str(a.name.as_str(), b.name.as_str())
    }
}

/// Inserts `x` into the sorted rows `v`.
fn insert_row_exec(v: &mut Vec<PackageRow>, x: PackageRow)
    ensures
        rows_view(final(v)@) == insert_row(rows_view(old(v)@), row_view(x)),
{
    let ghost s = rows_view(v@);
    let mut j: usize = v.len();
    assert(s.take(j as int) =~= s);
    while j > 0 && !row_le_exec(&v[j - 1], &x)
        invariant
            j <= v@.len(),
            s == rows_view(v@),
            insert_row(s, row_view(x)) == insert_row(s.take(j as int), row_view(x)) + s.skip(
                j as int,
            ),
        decreases j,
    {
        let ghost t = s.take(j as int);
        assert(t.drop_last() =~= s.take(j - 1));
        assert(t.last() == s[j - 1]);
        assert(insert_row(s.take(j - 1), row_view(x)).push(s[j - 1]) + s.skip(j as int)
            =~= insert_row(s.take(j - 1), row_view(x)) + s.skip(j - 1));
        j = j - 1;
    }
    let ghost xv = row_view(x);
    proof {
        if j > 0 {
            assert(s.take(j as int).last() == s[j - 1]);
        }
    }
    v.insert(j, x);
    assert(rows_view(v@) =~= insert_row(s, xv));
}

/// The row of one package.
fn row_for(u: &CargoUniverse, p: &Package) -> (r: PackageRow)
    ensures
        row_view(r) == package_row(*u, *p),
{
    let identity = u.identity(p);
    let origin = u.origin(p);
    let features = u.enabled_features(p.id.as_str());
    let joined = join_strings(&features, ",");
    assert(features@.map_values(|s: String| s@) =~= views(features@));
    PackageRow {
        name: identity.name,
        version: identity.version,
        origin: to_owned(origin.as_str()),
        features: joined,
        manifest_path: identity.manifest_path,
        package_id: identity.package_id,
    }
}

/// The package listing of a universe: one row per package, sorted by name
/// and then version (a stable sort).
pub fn package_rows(u: &CargoUniverse) -> (r: Vec<PackageRow>)
    ensures
        rows_view(r@) == sorted_rows(package_rows_spec(*u, u.packages_spec())),
{
    let pkgs = u.packages();
    let ghost all = package_rows_spec(*u, u.packages_spec());
    let mut out: Vec<PackageRow> = Vec::new();
    let mut i: usize = 0;
    assert(all.take(0) =~= Seq::empty());
    while i < pkgs.len()
        invariant
            i <= pkgs@.len(),
            pkgs@ == u.packages_spec(),
            all == package_rows_spec(*u, u.packages_spec()),
            rows_view(out@) == sorted_rows(all.take(i as int)),
        decreases pkgs@.len() - i,
    {
        assert(all.take(i + 1).drop_last() =~= all.take(i as int));
        assert(all.take(i + 1).last() == package_row(*u, pkgs@[i as int]));
        let row = row_for(u, &pkgs[i]);
        insert_row_exec(&mut out, row);
        i = i + 1;
    }
    assert(all.take(i as int) =~= all);
    out
}

/// `s` padded with spaces to `width` characters (`{:<width}`).
pub open spec fn pad(s: Seq<char>, width: nat) -> Seq<char> {
    if s.len() < width {
        s + Seq::new((width - s.len()) as nat, |i: int| ' ')
    } else {
        s
    }
}

/// Appends `s` padded with spaces to `width` characters.
fn push_padded(out: &mut String, s: &str, width: usize)
    ensures
        final(out)@ == old(out)@ + pad(s@, width as nat),
{
    let ghost start = out@;
    push_str(out, s);
    let n = chars_of(s).len();
    if n >= width {
        return;
    }
    let mut k: usize = n;
    assert(Seq::new(0nat, |i: int| ' ') =~= Seq::<char>::empty());
    assert(out@ =~= start + s@ + Seq::new((k - n) as nat, |i: int| ' '));
    while k < width
        invariant
            n == s@.len(),
            n <= k <= width,
            out@ == start + s@ + Seq::new((k - n) as nat, |i: int| ' '),
        decreases width - k,
    {
        push_char(out, ' ');
        assert(Seq::new((k - n) as nat, |i: int| ' ').push(' ') =~= Seq::new(
            (k + 1 - n) as nat,
            |i: int| ' ',
        ));
        k = k + 1;
    }
}

/// The header line of the package table.
pub open spec fn table_header() -> Seq<char> {
    pad("PACKAGE"@, 24) + " "@ + pad("VERSION"@, 12) + " "@ + pad("ORIGIN"@, 10) + " "@ + pad(
        "FEATURES"@,
        28,
    ) + " PATH"@
}

/// The table line of a row; a package without enabled features shows `-`.
pub open spec fn table_line(r: (Seq<char>, Seq<char>, Seq<char>, Seq<char>, Seq<char>, Seq<char>)) -> Seq<
    char,
> {
    let features = if r.3.len() == 0 {
        "-"@
    } else {
        r.3
    };
    pad(r.0, 24) + " "@ + pad(r.1, 12) + " "@ + pad(r.2, 10) + " "@ + pad(features, 28) + " "@
        + r.4
}

/// The header line of the package table.
pub fn package_table_header() -> (r: String)
    ensures
        r@ == table_header(),
{
    let mut out = String::new();
    push_padded(&mut out, "PACKAGE", 24);
    push_str(&mut out, " ");
    push_padded(&mut out, "VERSION", 12);
    push_str(&mut out, " ");
    push_padded(&mut out, "ORIGIN", 10);
    push_str(&mut out, " ");
    push_padded(&mut out, "FEATURES", 28);
    push_str(&mut out, " PATH");
    out
}

/// The table line of a row.
pub fn package_table_line(row: &PackageRow) -> (r: String)
    ensures
        r@ == table_line(row_view(*row)),
{
    let mut out = String::new();
    push_padded(&mut out, row.name.as_str(), 24);
    push_str(&mut out, " ");
    push_padded(&mut out, row.version.as_str(), 12);
    push_str(&mut out, " ");
    push_padded(&mut out, row.origin.as_str(), 10);
    push_str(&mut out, " ");
    if row.features.as_str().is_empty() {
        push_padded(&mut out, "-", 28);
    } else {
        push_padded(&mut out, row.features.as_str(), 28);
    }
    push_str(&mut out, " ");
    push_str(&mut out, row.manifest_path.as_str());
    out
}

/// The rows are in (name, version) order.
pub open spec fn rows_sorted(s: Seq<(Seq<char>, Seq<char>, Seq<char>, Seq<char>, Seq<char>, Seq<char>)>) -> bool {
    forall|i: int, j: int| 0 <= i < j < s.len() ==> row_le(#[trigger] s[i], #[trigger] s[j])
}

proof fn lemma_row_le_total(
    a: (Seq<char>, Seq<char>, Seq<char>, Seq<char>, Seq<char>, Seq<char>),
    b: (Seq<char>, Seq<char>, Seq<char>, Seq<char>, Seq<char>, Seq<char>),
)
    ensures
        row_le(a, b) || row_le(b, a),
{
    lemma_text_le_total(a.0, b.0);
    lemma_text_le_total(a.1, b.1);
}

proof fn lemma_row_le_trans(
    a: (Seq<char>, Seq<char>, Seq<char>, Seq<char>, Seq<char>, Seq<char>),
    b: (Seq<char>, Seq<char>, Seq<char>, Seq<char>, Seq<char>, Seq<char>),
    c: (Seq<char>, Seq<char>, Seq<char>, Seq<char>, Seq<char>, Seq<char>),
)
    requires
        row_le(a, b),
        row_le(b, c),
    ensures
        row_le(a, c),
{
    if a.0 == b.0 && b.0 == c.0 {
        lemma_text_le_trans(a.1, b.1, c.1);
    } else if a.0 == b.0 {
    } else if b.0 == c.0 {
    } else {
        lemma_text_le_trans(a.0, b.0, c.0);
        if a.0 == c.0 {
            lemma_text_le_antisym(a.0, b.0);
        }
    }
}

proof fn lemma_insert_row_elements(
    s: Seq<(Seq<char>, Seq<char>, Seq<char>, Seq<char>, Seq<char>, Seq<char>)>,
    x: (Seq<char>, Seq<char>, Seq<char>, Seq<char>, Seq<char>, Seq<char>),
    i: int,
)
    requires
        0 <= i < s.len() + 1,
    ensures
        insert_row(s, x).len() == s.len() + 1,
        insert_row(s, x)[i] == x || exists|k: int|
            0 <= k < s.len() && s[k] == #[trigger] insert_row(s, x)[i],
    decreases s.len(),
{
    if s.len() == 0 {
    } else if row_le(s.last(), x) {
        if i < s.len() {
            assert(s[i] == s.push(x)[i]);
        }
    } else {
        let d = s.drop_last();
        let t = insert_row(d, x);
        if i < s.len() {
            lemma_insert_row_elements(d, x, i);
            assert(insert_row(s, x)[i] == t[i]);
            if t[i] != x {
                let k = choose|k: int| 0 <= k < d.len() && d[k] == t[i];
                assert(s[k] == d[k]);
            }
        } else {
            lemma_insert_row_elements(d, x, 0);
            assert(insert_row(s, x) == t.push(s.last()));
            assert(s[s.len() - 1] == s.last());
        }
    }
}

proof fn lemma_insert_row(
    s: Seq<(Seq<char>, Seq<char>, Seq<char>, Seq<char>, Seq<char>, Seq<char>)>,
    x: (Seq<char>, Seq<char>, Seq<char>, Seq<char>, Seq<char>, Seq<char>),
)
    requires
        rows_sorted(s),
    ensures
        rows_sorted(insert_row(s, x)),
        insert_row(s, x).to_multiset() == s.to_multiset().insert(x),
    decreases s.len(),
{
    broadcast use vstd::seq_lib::group_seq_properties;
    broadcast use vstd::multiset::group_multiset_axioms;
    if s.len() == 0 {
        assert(seq![x] =~= Seq::<(Seq<char>, Seq<char>, Seq<char>, Seq<char>, Seq<char>, Seq<char>)>::empty().push(x));
    } else if row_le(s.last(), x) {
        let r = s.push(x);
        assert forall|i: int, j: int| 0 <= i < j < r.len() implies row_le(
            #[trigger] r[i],
            #[trigger] r[j],
        ) by {
            if j == s.len() && i < s.len() - 1 {
                lemma_row_le_trans(s[i], s[s.len() - 1], x);
            }
        }
    } else {
        let d = s.drop_last();
        let l = s.last();
        lemma_insert_row(d, x);
        lemma_insert_row_elements(d, x, 0);
        let t = insert_row(d, x);
        let r = t.push(l);
        lemma_row_le_total(l, x);
        assert(s =~= d.push(l));
        assert forall|i: int, j: int| 0 <= i < j < r.len() implies row_le(
            #[trigger] r[i],
            #[trigger] r[j],
        ) by {
            if j == t.len() {
                lemma_insert_row_elements(d, x, i);
                if t[i] != x {
                    let k = choose|k: int| 0 <= k < d.len() && d[k] == t[i];
                    assert(row_le(s[k], s[s.len() - 1]));
                }
            }
        }
    }
}

/// The package listing is in (name, version) order and lists every
/// package row exactly as often as the universe holds it.
pub proof fn law_listing_sorted_permutation(
    s: Seq<(Seq<char>, Seq<char>, Seq<char>, Seq<char>, Seq<char>, Seq<char>)>,
)
    ensures
        rows_sorted(sorted_rows(s)),
        sorted_rows(s).to_multiset() == s.to_multiset(),
    decreases s.len(),
{
    broadcast use vstd::seq_lib::group_seq_properties;
    if s.len() > 0 {
        law_listing_sorted_permutation(s.drop_last());
        lemma_insert_row(sorted_rows(s.drop_last()), s.last());
        assert(s =~= s.drop_last().push(s.last()));
    }
}

/// A listing row names the origin of its package: `workspace` for a member,
/// `path` for another package without a source (a local path
/// dependency), `git` for a `git+` source, and `registry` for any other
/// source.
pub proof fn law_row_origin(u: CargoUniverse, p: Package)
    ensures
        ({
            let member = exists|i: int|
                0 <= i < u.member_ids_spec().len() && #[trigger] u.member_ids_spec()[i]@ == p.id@;
            let origin = package_row(u, p).2;
            &&& (origin == "workspace"@) <==> member
            &&& (origin == "path"@) <==> (!member && p.source is None)
            &&& (origin == "git"@) <==> (!member && (p.source matches Some(s) && crate::text::starts_with(
                s@,
                "git+"@,
            )))
            &&& (origin == "registry"@) <==> (!member && (p.source matches Some(s) && !crate::text::starts_with(
                s@,
                "git+"@,
            )))
        }),
{
    let member = exists|i: int|
        0 <= i < u.member_ids_spec().len() && #[trigger] u.member_ids_spec()[i]@ == p.id@;
    let source = crate::text::opt_string_view(p.source);
    crate::cargo::law_origin_classification(member, source);
    reveal_strlit("workspace");
    reveal_strlit("path");
    reveal_strlit("git");
    reveal_strlit("registry");
    assert("workspace"@ != "path"@ && "workspace"@ != "git"@ && "workspace"@ != "registry"@) by {
        assert("workspace"@[0] != "path"@[0] && "workspace"@[0] != "git"@[0] && "workspace"@[0]
            != "registry"@[0]);
    }
    assert("path"@ != "git"@ && "path"@ != "registry"@ && "git"@ != "registry"@) by {
        assert("path"@[0] != "git"@[0] && "path"@[0] != "registry"@[0] && "git"@[0] != "registry"@[0]);
    }
}

} // verus!
