//! Reading a rustdoc JSON artifact's text: the format-version probe, the
//! full parse, and the error that a failed parse is reported as.
use vstd::prelude::*;

use crate::error::IndexError;
use crate::model::{display_spec, PackageIdentity};
use crate::rustdoc::normalize::{
    doc_views, normalize, parse_failure, walk_crate, warnings_for, RustdocNormalized,
};
use crate::rustdoc::types::DocCrate;
use crate::text::strings_view;

verus! {

/// The format version that the `rustdoc_types` parser was built for
/// (`rustdoc_types::FORMAT_VERSION`).
pub open spec fn parser_format_version_spec() -> u32 {
    61
}

/// `rustdoc_types::FORMAT_VERSION`, which the crate's source defines as 61.
#[verifier::external_body]
fn parser_format_version() -> (r: u32)
    ensures
        r == parser_format_version_spec(),
{
    rustdoc_types::FORMAT_VERSION
}

/// What a `serde_json::Value` probe of `raw` finds: the `format_version`
/// field read as a `u64` (`None` when it is absent or not an unsigned
/// integer), or the text of the error when `raw` is not JSON.
pub uninterp spec fn json_format_version(raw: Seq<char>) -> Result<Option<u64>, Seq<char>>;

/// Parses `raw` as a `serde_json::Value` and reads its `format_version`
/// with `Value::get` and `Value::as_u64`; a parse error comes back as its
/// text.
#[verifier::external_body]
fn probe_format_version(raw: &str) -> (r: Result<Option<u64>, String>)
    ensures
        match r {
            Ok(v) => json_format_version(raw@) == Ok::<Option<u64>, Seq<char>>(v),
            Err(e) => json_format_version(raw@) == Err::<Option<u64>, Seq<char>>(e@),
        },
{
    match serde_json::from_str::<serde_json::Value>(raw) {
        Ok(v) => Ok(v.get("format_version").and_then(serde_json::Value::as_u64)),
        Err(e) => Err(e.to_string()),
    }
}

/// Whether `serde_json` deserializes `raw` into a `rustdoc_types::Crate`:
/// `None` when it does, else the text of its error.
pub uninterp spec fn rustdoc_parse_error(raw: Seq<char>) -> Option<Seq<char>>;

/// Deserializes `raw` into a `rustdoc_types::Crate` with
/// `serde_json::from_str`; an error comes back as its text. Nothing is
/// said of the crate itself: its maps are hash maps.
#[verifier::external_body]
fn parse_rustdoc(raw: &str) -> (r: Result<rustdoc_types::Crate, String>)
    ensures
        match r {
            Ok(_) => rustdoc_parse_error(raw@) is None,
            Err(e) => rustdoc_parse_error(raw@) == Some(e@),
        },
{
    match serde_json::from_str::<rustdoc_types::Crate>(raw) {
        Ok(k) => Ok(k),
        Err(e) => Err(e.to_string()),
    }
}

/// The format version a probe reports: the field's value cut to `u32`,
/// or 0 when the field is missing.
pub open spec fn probed_version(v: Option<u64>) -> u32 {
    match v {
        Some(n) => n as u32,
        None => 0,
    }
}

fn probed_version_exec(v: Option<u64>) -> (r: u32)
    ensures
        r == probed_version(v),
{
    match v {
        Some(n) => n as u32,
        None => 0,
    }
}

/// `e` is the `RustdocParse` error with these fields.
pub open spec fn is_rustdoc_parse(
    e: IndexError,
    package: Seq<char>,
    got: u32,
    expected: u32,
    artifact: Seq<char>,
    cause: Seq<char>,
) -> bool {
    e matches IndexError::RustdocParse { package: p, got: g, expected: x, artifact: a, cause: c }
        && p@ == package && g == got && x == expected && a@ == artifact && c@ == cause
}

/// `e` is the error a failed full parse is reported as: a format-version
/// mismatch when the probed version differs from the parser's, else a
/// parse error with the parser's words.
pub open spec fn is_parse_failure(
    e: IndexError,
    package: Seq<char>,
    got: u32,
    expected: u32,
    artifact: Seq<char>,
    cause: Seq<char>,
) -> bool {
    if got != expected {
        e matches IndexError::RustdocFormatVersion { package: p, got: g, expected: x, artifact: a }
            && p@ == package && g == got && x == expected && a@ == artifact
    } else {
        is_rustdoc_parse(e, package, got, expected, artifact, cause)
    }
}

/// `c` with its format version replaced by `got`.
pub open spec fn with_format_version(c: DocCrate, got: u32) -> DocCrate {
    DocCrate { root: c.root, index: c.index, paths: c.paths, format_version: got }
}

/// `n` is the normalization of crate `k` of `package` (see [`normalize`]).
pub open spec fn normalized_from(
    n: RustdocNormalized,
    package: PackageIdentity,
    k: DocCrate,
    workspace_root: Seq<char>,
    expected: u32,
) -> bool {
    &&& n.format_version == k.format_version
    &&& doc_views(n.documents@) == walk_crate(k, package, workspace_root).docs
    &&& strings_view(n.warnings@) == warnings_for(package, k.format_version, expected)
}

/// Parses and normalizes the text `raw` of the rustdoc JSON artifact at
/// `artifact`. The text is first probed as JSON for its `format_version`
/// (0 when absent); text that is not JSON is a `RustdocParse` error with
/// version 0. The text is then parsed fully; when that fails, a version
/// that differs from the parser's is reported as the likely cause
/// (`RustdocFormatVersion`), else the parser's error is
/// (`RustdocParse`). A parsed crate is handed to `convert`, takes the
/// probed version, and is normalized with [`normalize`].
pub fn normalize_text<F>(
    package: &PackageIdentity,
    raw: &str,
    artifact: &str,
    workspace_root: &str,
    convert: F,
) -> (r: Result<RustdocNormalized, IndexError>) where F: Fn(&rustdoc_types::Crate) -> DocCrate
    requires
        forall|k: &rustdoc_types::Crate| call_requires(convert, (k,)),
    ensures
        ({
            let display = display_spec(package.name@, package.version@);
            let expected = parser_format_version_spec();
            match json_format_version(raw@) {
                Err(cause) => r matches Err(e) && is_rustdoc_parse(
                    e,
                    display,
                    0,
                    expected,
                    artifact@,
                    cause,
                ),
                Ok(v) => match rustdoc_parse_error(raw@) {
                    Some(cause) => r matches Err(e) && is_parse_failure(
                        e,
                        display,
                        probed_version(v),
                        expected,
                        artifact@,
                        cause,
                    ),
                    None => r matches Ok(n) && exists|k: rustdoc_types::Crate, c: DocCrate|
                        #[trigger] call_ensures(convert, (&k,), c) && normalized_from(
                            n,
                            *package,
                            with_format_version(c, probed_version(v)),
                            workspace_root@,
                            expected,
                        ),
                },
            }
        }),
{
    let expected = parser_format_version();
    let probe = probe_format_version(raw);
    let got = match probe {
        Err(cause) => {
            return Err(
                IndexError::RustdocParse {
                    package: package.display(),
                    got: 0,
                    expected,
                    artifact: artifact.to_owned(),
                    cause,
                },
            );
        },
        Ok(v) => probed_version_exec(v),
    };
    let parsed = match parse_rustdoc(raw) {
        Ok(k) => k,
        Err(cause) => {
            return Err(parse_failure(package.display(), got, expected, artifact.to_owned(), cause));
        },
    };
    let converted = convert(&parsed);
    let ghost c = converted;
    let krate = DocCrate {
        root: converted.root,
        index: converted.index,
        paths: converted.paths,
        format_version: got,
    };
    assert(krate == with_format_version(c, got));
    let n = normalize(package, &krate, workspace_root, expected);
    Ok(n)
}

} // verus!
