//! The self-contained HTML configuration reference page.
//!
//! The page is rendered from a description of the argument shapes that
//! parse both binaries (their options, subcommands and environment layer),
//! by hand: no template engine, no JavaScript, inline CSS, every piece of
//! text HTML-escaped, and no timestamps or absolute paths, so regenerating
//! reproduces the page byte for byte.
use vstd::prelude::*;

use crate::text::{
    chars_of, join, join_strings, push_str, replace_char, replace_char_str, starts_with, str_eq,
    str_starts_with, string_of, strings_view, to_owned, trim, trim_str,
};

verus! {

/// How a field takes part in argument parsing.
#[derive(Clone, Copy, Debug, PartialEq, Eq, Structural)]
pub enum ArgRole {
    /// `--flag` option.
    Named,
    /// Positional argument.
    Positional,
    /// The subcommand selector.
    Subcommand,
    /// A struct whose fields are options of their own.
    Flatten,
    /// Not an argument.
    Other,
}

/// Where a field's short flag comes from.
#[derive(Clone, Copy, Debug, PartialEq, Eq, Structural)]
pub enum ShortFlag {
    Absent,
    Given(char),
    /// The first character of the field name.
    FromName,
}

/// One field of an argument shape.
#[derive(Debug)]
pub struct ArgField {
    /// The field's effective name (`manifest_path`, `source-kind`).
    pub name: String,
    pub role: ArgRole,
    /// The fields of a flattened struct.
    pub flattened: Vec<ArgField>,
    pub short: ShortFlag,
    /// Identifier of the value type, inside `Option` and `Vec`.
    pub type_identifier: String,
    /// The value is an `Option`.
    pub optional: bool,
    /// The value is a list (inside the `Option`, if any).
    pub repeatable: bool,
    /// The declared default, as it displays; `None` without one.
    pub default: Option<String>,
    /// Counted flag (`-vvv`).
    pub counted: bool,
    /// Doc-comment lines.
    pub doc: Vec<String>,
    /// Environment variables that set this field.
    pub env_aliases: Vec<String>,
}

/// One subcommand: its name, doc-comment lines and fields.
#[derive(Debug)]
pub struct SubcommandShape {
    pub name: String,
    pub doc: Vec<String>,
    pub fields: Vec<ArgField>,
}

/// The argument shape of one binary.
#[derive(Debug)]
pub struct BinaryShape {
    pub program: String,
    pub about: String,
    pub fields: Vec<ArgField>,
    /// The subcommands, when the binary has a subcommand selector.
    pub subcommands: Option<Vec<SubcommandShape>>,
}

/// One rendered argument row.
pub struct ArgRow {
    /// `--flag` or `<POSITIONAL>`.
    pub display: String,
    pub short: Option<char>,
    pub type_label: String,
    pub default: String,
    pub required: bool,
    pub doc: String,
}

/// What `char::is_uppercase` says of a character.
pub uninterp spec fn is_upper(c: char) -> bool;

/// What `char::to_lowercase` yields for a character.
pub uninterp spec fn lower(c: char) -> Seq<char>;

/// What `str::to_uppercase` makes of a text.
pub uninterp spec fn upper(s: Seq<char>) -> Seq<char>;

/// `c` is an ASCII letter or digit.
pub open spec fn is_ascii_alnum(c: char) -> bool {
    ('A' <= c && c <= 'Z') || ('a' <= c && c <= 'z') || ('0' <= c && c <= '9')
}

/// The ASCII upper case of `c`: `a`..`z` become `A`..`Z`, anything else
/// stays.
pub open spec fn ascii_upper(c: char) -> char {
    if 'a' <= c && c <= 'z' {
        ((c as u32) - 32) as char
    } else {
        c
    }
}

/// Whether a character is upper case (`char::is_uppercase`, the Unicode
/// `Uppercase` property): among ASCII letters and digits exactly `A`..`Z`
/// have it.
#[verifier::external_body]
fn char_is_upper(c: char) -> (r: bool)
    ensures
        r == is_upper(c),
        is_ascii_alnum(c) ==> (r <==> ('A' <= c && c <= 'Z')),
{
    c.is_uppercase()
}

/// The lower case of a character (`char::to_lowercase`): `A`..`Z` map to
/// `a`..`z`, and a character without a lower-case mapping, such as a
/// lower-case letter or a digit, maps to itself.
#[verifier::external_body]
fn char_lower(c: char) -> (r: String)
    ensures
        r@ == lower(c),
        'A' <= c && c <= 'Z' ==> r@ == seq![((c as u32) + 32) as char],
        ('a' <= c && c <= 'z') || ('0' <= c && c <= '9') ==> r@ == seq![c],
{
    c.to_lowercase().collect()
}

/// The upper case of a text (`str::to_uppercase`): on ASCII text, each
/// character's ASCII upper case.
#[verifier::external_body]
fn text_upper(s: &str) -> (r: String)
    ensures
        r@ == upper(s@),
        (forall|i: int| 0 <= i < s@.len() ==> (s@[i] as u32) < 128) ==> r@ == s@.map_values(
            |c: char| ascii_upper(c),
        ),
{
    s.to_uppercase()
}

/// `text` with `&`, `<`, `>`, `"` and `'` written as HTML entities.
pub open spec fn esc_spec(text: Seq<char>) -> Seq<char> {
    replace_char(
        replace_char(
            replace_char(
                replace_char(replace_char(text, '&', "&amp;"@), '<', "&lt;"@),
                '>',
                "&gt;"@,
            ),
            '"',
            "&quot;"@,
        ),
        '\'',
        "&#39;"@,
    )
}

/// The kebab-case of a name written in camel case.
pub open spec fn kebab_camel(cs: Seq<char>) -> Seq<char>
    decreases cs.len(),
{
    if cs.len() == 0 {
        Seq::empty()
    } else {
        let i = cs.len() - 1;
        kebab_camel(cs.drop_last()) + (if is_upper(cs.last()) && i > 0 {
            "-"@
        } else {
            Seq::empty()
        }) + lower(cs.last())
    }
}

/// The ASCII lower case of `c`: `A`..`Z` become `a`..`z`, anything else
/// stays.
pub open spec fn ascii_lower(c: char) -> char {
    if 'A' <= c && c <= 'Z' {
        ((c as u32) + 32) as char
    } else {
        c
    }
}

/// [`kebab_camel`] of a name made of ASCII letters and digits, where the
/// case mapping is ASCII's.
pub open spec fn kebab_camel_ascii(cs: Seq<char>) -> Seq<char>
    decreases cs.len(),
{
    if cs.len() == 0 {
        Seq::empty()
    } else {
        let i = cs.len() - 1;
        kebab_camel_ascii(cs.drop_last()) + (if 'A' <= cs.last() && cs.last() <= 'Z' && i > 0 {
            "-"@
        } else {
            Seq::empty()
        }) + seq![ascii_lower(cs.last())]
    }
}

/// `name` is made of ASCII letters, digits and underscores.
pub open spec fn is_ascii_ident(name: Seq<char>) -> bool {
    forall|i: int| 0 <= i < name.len() ==> is_ascii_alnum(#[trigger] name[i]) || name[i] == '_'
}

/// The kebab-case of an identifier: underscores become dashes; a name
/// without one is split before each upper-case letter and lower-cased.
pub open spec fn kebab_spec(name: Seq<char>) -> Seq<char> {
    if name.contains('_') {
        replace_char(name, '_', "-"@)
    } else {
        kebab_camel(name)
    }
}

/// The start of the last `::` in `s`.
pub open spec fn last_sep(s: Seq<char>) -> Option<int>
    decreases s.len(),
{
    if s.len() < 2 {
        None
    } else if s[s.len() - 2] == ':' && s[s.len() - 1] == ':' {
        Some(s.len() - 2)
    } else {
        last_sep(s.drop_last())
    }
}

/// The last `::`-separated segment of a type identifier.
pub open spec fn last_segment_spec(s: Seq<char>) -> Seq<char> {
    match last_sep(s) {
        Some(k) => s.skip(k + 2),
        None => s,
    }
}

/// Doc-comment lines, trimmed and joined into one paragraph.
pub open spec fn doc_text_spec(lines: Seq<Seq<char>>) -> Seq<char> {
    join(lines.map_values(|l: Seq<char>| trim(l)), " "@)
}

/// The display of an argument: `<NAME>` for a positional, `--name`
/// otherwise.
pub open spec fn display_of(f: ArgField) -> Seq<char> {
    if f.role == ArgRole::Positional {
        "<"@ + upper(kebab_spec(f.name@)) + ">"@
    } else {
        "--"@ + kebab_spec(f.name@)
    }
}

/// The value label of an argument.
pub open spec fn label_of(f: ArgField) -> Seq<char> {
    upper(last_segment_spec(f.type_identifier@)) + (if f.optional {
        " (optional)"@
    } else {
        Seq::empty()
    }) + (if f.repeatable {
        " (repeatable)"@
    } else {
        Seq::empty()
    })
}

/// The rendered default of an argument: `unset` for an optional one
/// without a default, a dash for another one without; lists default to
/// empty.
pub open spec fn default_of(f: ArgField) -> Seq<char> {
    match f.default {
        None => if f.optional {
            "unset"@
        } else {
            "\u{2014}"@
        },
        Some(d) => if f.repeatable && !f.optional {
            "(empty list)"@
        } else {
            d@
        },
    }
}

/// Whether an argument must be given: not optional, no default, not a
/// switch, not counted.
pub open spec fn required_of(f: ArgField) -> bool {
    !f.optional && f.default is None && last_segment_spec(f.type_identifier@) != "bool"@
        && !f.counted
}

/// The short flag of an argument.
pub open spec fn short_of(f: ArgField) -> Option<char> {
    match f.short {
        ShortFlag::Absent => None,
        ShortFlag::Given(c) => Some(c),
        ShortFlag::FromName => if f.name@.len() > 0 {
            Some(f.name@[0])
        } else {
            None
        },
    }
}

/// The view of a row.
pub open spec fn row_view(r: ArgRow) -> (Seq<char>, Option<char>, Seq<char>, Seq<char>, bool, Seq<
    char,
>) {
    (r.display@, r.short, r.type_label@, r.default@, r.required, r.doc@)
}

/// The row of an argument.
pub open spec fn row_spec(f: ArgField) -> (Seq<char>, Option<char>, Seq<char>, Seq<char>, bool, Seq<
    char,
>) {
    (display_of(f), short_of(f), label_of(f), default_of(f), required_of(f), doc_text_spec(strings_view(f.doc@)))
}

/// The rows of some fields, in declaration order, flattened fields
/// inlined and the subcommand selector left out.
pub open spec fn rows_of(fields: Seq<ArgField>) -> Seq<
    (Seq<char>, Option<char>, Seq<char>, Seq<char>, bool, Seq<char>),
>
    decreases fields,
{
    if fields.len() == 0 {
        Seq::empty()
    } else {
        rows_of(fields.drop_last()) + field_rows(fields.last())
    }
}

/// The rows of one field.
pub open spec fn field_rows(f: ArgField) -> Seq<
    (Seq<char>, Option<char>, Seq<char>, Seq<char>, bool, Seq<char>),
>
    decreases f,
{
    match f.role {
        ArgRole::Flatten => rows_of(f.flattened@),
        ArgRole::Named | ArgRole::Positional => seq![row_spec(f)],
        _ => Seq::empty(),
    }
}

/// The head of an argument table.
pub const TABLE_HEAD: &'static str = "<table>\n<thead><tr><th>Argument</th><th>Short</th><th>Value</th><th>Default</th><th>Required</th><th>Description</th></tr></thead>\n<tbody>\n";

/// The end of a table.
pub const TABLE_END: &'static str = "</tbody>\n</table>\n";

/// The HTML of one row.
pub open spec fn row_html(r: (Seq<char>, Option<char>, Seq<char>, Seq<char>, bool, Seq<char>)) -> Seq<
    char,
> {
    let short = match r.1 {
        Some(c) => seq![c],
        None => Seq::empty(),
    };
    let required = if r.4 {
        "<span class=\"required\">yes</span>"@
    } else {
        Seq::empty()
    };
    "<tr><td class=\"flag\"><code>"@ + esc_spec(r.0) + "</code></td><td>"@ + esc_spec(short)
        + "</td><td>"@ + esc_spec(r.2) + "</td><td>"@ + esc_spec(r.3) + "</td><td>"@ + required
        + "</td><td>"@ + esc_spec(r.5) + "</td></tr>\n"@
}

/// The HTML of some rows.
pub open spec fn rows_html(rows: Seq<(Seq<char>, Option<char>, Seq<char>, Seq<char>, bool, Seq<char>)>) -> Seq<
    char,
>
    decreases rows.len(),
{
    if rows.len() == 0 {
        Seq::empty()
    } else {
        rows_html(rows.drop_last()) + row_html(rows.last())
    }
}

/// The table of some rows.
pub open spec fn table_html(rows: Seq<(Seq<char>, Option<char>, Seq<char>, Seq<char>, bool, Seq<char>)>) -> Seq<
    char,
> {
    TABLE_HEAD@ + rows_html(rows) + TABLE_END@
}

/// The positional part of a usage line: ` <A> <B>`.
pub open spec fn positionals_of(rows: Seq<(Seq<char>, Option<char>, Seq<char>, Seq<char>, bool, Seq<char>)>) -> Seq<
    char,
>
    decreases rows.len(),
{
    if rows.len() == 0 {
        Seq::empty()
    } else {
        let d = rows.last().0;
        positionals_of(rows.drop_last()) + if starts_with(d, "<"@) {
            " "@ + d
        } else {
            Seq::empty()
        }
    }
}

/// Whether some row is a `--` option.
pub open spec fn has_flags(rows: Seq<(Seq<char>, Option<char>, Seq<char>, Seq<char>, bool, Seq<char>)>) -> bool {
    exists|i: int| 0 <= i < rows.len() && starts_with(#[trigger] rows[i].0, "--"@)
}

/// The heading of a subcommand's section, with its description.
pub open spec fn subcommand_heading(program: Seq<char>, sub: SubcommandShape) -> Seq<char> {
    let name = kebab_spec(sub.name@);
    let doc = doc_text_spec(strings_view(sub.doc@));
    "<h4 id=\"command-"@ + name + "\"><code>"@ + esc_spec(program) + " "@ + esc_spec(name)
        + "</code></h4>\n"@ + (if doc.len() > 0 {
        "<p>"@ + esc_spec(doc) + "</p>\n"@
    } else {
        Seq::empty()
    })
}

/// The usage line of a subcommand.
pub open spec fn usage_line(
    program: Seq<char>,
    name: Seq<char>,
    rows: Seq<(Seq<char>, Option<char>, Seq<char>, Seq<char>, bool, Seq<char>)>,
) -> Seq<char> {
    "<p class=\"note\">Usage: <code>"@ + esc_spec(program) + " "@ + esc_spec(name) + (if has_flags(
        rows,
    ) {
        " [OPTIONS]"@
    } else {
        Seq::empty()
    }) + esc_spec(positionals_of(rows)) + "</code></p>\n"@
}

/// The section of one subcommand.
pub open spec fn subcommand_html(program: Seq<char>, sub: SubcommandShape) -> Seq<char> {
    let rows = rows_of(sub.fields@);
    subcommand_heading(program, sub) + usage_line(program, kebab_spec(sub.name@), rows) + table_html(
        rows,
    )
}

/// The sections of some subcommands.
pub open spec fn subcommands_html(program: Seq<char>, subs: Seq<SubcommandShape>) -> Seq<char>
    decreases subs.len(),
{
    if subs.len() == 0 {
        Seq::empty()
    } else {
        subcommands_html(program, subs.drop_last()) + subcommand_html(program, subs.last())
    }
}

/// The start of a binary's section, up to its options table.
pub open spec fn binary_head(shape: BinaryShape) -> Seq<char> {
    "<section id=\""@ + kebab_spec(shape.program@) + "\">\n<h2><code>"@ + esc_spec(shape.program@)
        + "</code></h2>\n<p>"@ + esc_spec(shape.about@) + "</p>\n"@ + "<h3>Options</h3>\n"@
}

/// The subcommand part of a binary's section.
pub open spec fn subcommands_part(program: Seq<char>, subs: Option<Vec<SubcommandShape>>) -> Seq<
    char,
> {
    match subs {
        Some(subs) => "<h3>Subcommands</h3>\n"@
            + "<p>Global options are also accepted after the subcommand name.</p>\n"@
            + subcommands_html(program, subs@),
        None => Seq::empty(),
    }
}

/// The section of one binary.
pub open spec fn binary_html(shape: BinaryShape) -> Seq<char> {
    binary_head(shape) + table_html(rows_of(shape.fields@)) + subcommands_part(
        shape.program@,
        shape.subcommands,
    ) + "</section>\n"@
}

/// The environment rows of one field: one per alias.
pub open spec fn alias_rows_html(aliases: Seq<Seq<char>>, doc: Seq<char>) -> Seq<char>
    decreases aliases.len(),
{
    if aliases.len() == 0 {
        Seq::empty()
    } else {
        alias_rows_html(aliases.drop_last(), doc)
            + "<tr><td class=\"flag\"><code>"@ + esc_spec(aliases.last())
            + "</code></td><td>both binaries</td><td><code>--index-dir</code></td><td>"@
            + esc_spec(doc) + "</td></tr>\n"@
    }
}

/// The environment rows of some fields.
pub open spec fn env_fields_html(fields: Seq<ArgField>) -> Seq<char>
    decreases fields.len(),
{
    if fields.len() == 0 {
        Seq::empty()
    } else {
        env_fields_html(fields.drop_last()) + alias_rows_html(
            strings_view(fields.last().env_aliases@),
            doc_text_spec(strings_view(fields.last().doc@)),
        )
    }
}

/// The start of the environment section.
pub const ENV_HEAD: &'static str = "<section id=\"environment-variables\">\n<h2>Environment variables</h2>\n<p>Layered below CLI arguments: an explicit flag always wins over an environment variable, which wins over the built-in default.</p>\n<table>\n<thead><tr><th>Variable</th><th>Applies to</th><th>Overridden by</th><th>Description</th></tr></thead>\n<tbody>\n";

/// The environment variables read outside argument parsing, documented by
/// hand: the log filters initialize logging before parsing, and the cargo
/// override is read by the engine when it spawns cargo.
pub const CURATED_ENV_ROWS: &'static str = "<tr><td class=\"flag\"><code>RUST_KNOWLEDGE_LOG</code></td><td>both binaries</td><td>--verbose (rust-knowledge only)</td><td>tracing env-filter for log output. Precedence: --verbose (forces debug) &gt; RUST_KNOWLEDGE_LOG &gt; RUST_LOG &gt; info.</td></tr>\n<tr><td class=\"flag\"><code>RUST_LOG</code></td><td>both binaries</td><td>RUST_KNOWLEDGE_LOG, --verbose</td><td>fallback tracing env-filter when RUST_KNOWLEDGE_LOG is unset.</td></tr>\n<tr><td class=\"flag\"><code>RUST_KNOWLEDGE_CARGO</code></td><td>knowledge-index (engine)</td><td>nothing (no CLI flag)</td><td>path to the cargo executable the engine uses for cargo metadata and rustdoc generation; defaults to the cargo on PATH.</td></tr>\n";

/// The end of the environment section.
pub const ENV_END: &'static str = "</tbody>\n</table>\n</section>\n";

/// The environment section.
pub open spec fn env_html(fields: Seq<ArgField>) -> Seq<char> {
    ENV_HEAD@ + env_fields_html(fields) + CURATED_ENV_ROWS@ + ENV_END@
}

/// The page head, up to the style sheet.
pub const PAGE_START: &'static str = "<!DOCTYPE html>\n<html lang=\"en\">\n<head>\n<meta charset=\"utf-\">\n<title>rust-knowledge configuration reference</title>\n";

/// The inline style sheet.
pub const CSS: &'static str = "<style>\nbody { font-family: system-ui, sans-serif; max-width: 62rem; margin: 2rem auto; padding: 0 1rem; line-height: 1.5; }\nh1 { font-size: 1.6rem; }\nh2 { border-bottom: 2px solid #8884; padding-bottom: 0.2rem; margin-top: 2.5rem; }\nh3 { margin-top: 1.6rem; }\nh4 { margin: 1.4rem 0 0.2rem; }\ntable { border-collapse: collapse; width: 100%; margin: 0.6rem 0 1.2rem; }\nth, td { text-align: left; padding: 0.35rem 0.6rem; border: 1px solid #8884; vertical-align: top; }\nth { background: #8882; }\ncode { font-family: ui-monospace, monospace; }\n.flag { white-space: nowrap; }\n.required { font-weight: 600; }\n.note { background: #8881; padding: 0.6rem 0.9rem; border-radius: 0.4rem; }\nnav ol { padding-left: 1.2rem; }\nfooter { margin-top: 3rem; color: #888; font-size: 0.9rem; border-top: 1px solid #8884; padding-top: 0.6rem; }\n</style>\n";

/// What follows the style sheet up to the title.
pub const BODY_START: &'static str = "</head>\n<body>\n";

/// The introduction and the navigation.
pub const INTRO: &'static str = "<p class=\"note\">This page is generated from the argument shapes that parse both binaries (regenerate with <code>rust-knowledge config-docs</code>), so the reference cannot drift from the code that interprets it. Configuration layers apply with precedence <strong>CLI arguments &gt; environment variables &gt; defaults</strong>.</p>\n<nav><ol><li><a href=\"#rust-knowledge\">rust-knowledge</a></li><li><a href=\"#knowledge-mcp\">knowledge-mcp</a></li><li><a href=\"#environment-variables\">Environment variables</a></li></ol></nav>\n";

/// The footer and the end of the page.
pub const PAGE_END: &'static str = "<footer>Generated from the argument shapes of <code>rust-knowledge</code> and <code>knowledge-mcp</code> by <code>rust-knowledge config-docs</code>. Output is deterministic: regenerating reproduces this file byte for byte.</footer>\n</body>\n</html>\n";

/// The whole page for the shapes of the two binaries and the fields of the
/// environment layer.
pub open spec fn page_spec(cli: BinaryShape, mcp: BinaryShape, env: Seq<ArgField>) -> Seq<char> {
    PAGE_START@ + CSS@ + BODY_START@ + "<h1>"@ + esc_spec(cli.program@) + " &amp; "@ + esc_spec(
        mcp.program@,
    ) + " configuration reference</h1>\n"@ + INTRO@ + binary_html(cli) + binary_html(mcp)
        + env_html(env) + PAGE_END@
}

/// `text` with `&`, `<`, `>`, `"` and `'` written as HTML entities.
pub fn esc(text: &str) -> (r: String)
    ensures
        r@ == esc_spec(text@),
{
    let a = replace_char_str(text, '&', "&amp;");
    let b = replace_char_str(a.as_str(), '<', "&lt;");
    let c = replace_char_str(b.as_str(), '>', "&gt;");
    let d = replace_char_str(c.as_str(), '"', "&quot;");
    replace_char_str(d.as_str(), '\'', "&#39;")
}

/// kebab-case of the identifiers used in argument shapes
/// (`manifest_path` -> `manifest-path`, `DumpDocs` -> `dump-docs`).
pub fn kebab(name: &str) -> (r: String)
    ensures
        r@ == kebab_spec(name@),
        is_ascii_ident(name@) && !name@.contains('_') ==> r@ == kebab_camel_ascii(name@),
{
    let cs = chars_of(name);
    let mut i: usize = 0;
    while i < cs.len()
        invariant
            i <= cs@.len(),
            cs@ == name@,
            forall|j: int| 0 <= j < i ==> cs@[j] != '_',
        decreases cs@.len() - i,
    {
        if cs[i] == '_' {
            assert(name@[i as int] == '_');
            return replace_char_str(name, '_', "-");
        }
        i = i + 1;
    }
    assert(!name@.contains('_'));
    let mut out = String::new();
    let mut k: usize = 0;
    assert(cs@.take(0) =~= Seq::<char>::empty());
    let ghost ascii = is_ascii_ident(name@);
    while k < cs.len()
        invariant
            k <= cs@.len(),
            cs@ == name@,
            !name@.contains('_'),
            ascii == is_ascii_ident(name@),
            out@ == kebab_camel(cs@.take(k as int)),
            ascii ==> out@ == kebab_camel_ascii(cs@.take(k as int)),
        decreases cs@.len() - k,
    {
        assert(cs@.take(k + 1).drop_last() =~= cs@.take(k as int));
        assert(cs@.take(k + 1).last() == cs@[k as int]);
        let c = cs[k];
        proof {
            if ascii {
                assert(is_ascii_alnum(name@[k as int]) || name@[k as int] == '_');
                assert(name@[k as int] != '_');
            }
        }
        if char_is_upper(c) && k > 0 {
            push_str(&mut out, "-");
        }
        let l = char_lower(c);
        push_str(&mut out, l.as_str());
        k = k + 1;
    }
    assert(cs@.take(k as int) =~= cs@);
    out
}

/// The last `::`-separated segment of a type identifier.
pub fn last_segment(identifier: &str) -> (r: String)
    ensures
        r@ == last_segment_spec(identifier@),
{
    let cs = chars_of(identifier);
    let mut k: usize = cs.len();
    assert(cs@.take(k as int) =~= cs@);
    while k >= 2
        invariant
            k <= cs@.len(),
            cs@ == identifier@,
            last_sep(cs@) == last_sep(cs@.take(k as int)),
        decreases k,
    {
        let ghost t = cs@.take(k as int);
        assert(t[k - 2] == cs@[k - 2] && t[k - 1] == cs@[k - 1]);
        if cs[k - 2] == ':' && cs[k - 1] == ':' {
            let out = string_of(&cs, k, cs.len());
            assert(out@ =~= cs@.skip(k as int));
            return out;
        }
        assert(t.drop_last() =~= cs@.take(k - 1));
        k = k - 1;
    }
    to_owned(identifier)
}

/// Doc-comment lines, trimmed and joined into one paragraph.
pub fn doc_text(lines: &Vec<String>) -> (r: String)
    ensures
        r@ == doc_text_spec(strings_view(lines@)),
{
    let ghost views = strings_view(lines@);
    let mut trimmed: Vec<String> = Vec::new();
    let mut i: usize = 0;
    while i < lines.len()
        invariant
            i <= lines@.len(),
            views == strings_view(lines@),
            strings_view(trimmed@) =~= views.take(i as int).map_values(|l: Seq<char>| trim(l)),
        decreases lines@.len() - i,
    {
        let t = trim_str(lines[i].as_str());
        let ghost before = strings_view(trimmed@);
        let ghost tv = t@;
        trimmed.push(t);
        assert(strings_view(trimmed@) =~= before.push(tv));
        assert(views.take(i + 1).map_values(|l: Seq<char>| trim(l)) =~= views.take(i as int).map_values(
            |l: Seq<char>| trim(l),
        ).push(trim(views[i as int])));
        i = i + 1;
    }
    assert(views.take(i as int) =~= views);
    let out = join_strings(&trimmed, " ");
    assert(trimmed@.map_values(|p: String| p@) =~= strings_view(trimmed@));
    out
}

/// The row of an argument.
fn row_of(f: &ArgField) -> (r: ArgRow)
    ensures
        row_view(r) == row_spec(*f),
{
    let name = kebab(f.name.as_str());
    let display = if f.role == ArgRole::Positional {
        let mut d = to_owned("<");
        let u = text_upper(name.as_str());
        push_str(&mut d, u.as_str());
        push_str(&mut d, ">");
        d
    } else {
        let mut d = to_owned("--");
        push_str(&mut d, name.as_str());
        d
    };
    let seg = last_segment(f.type_identifier.as_str());
    let mut label = text_upper(seg.as_str());
    if f.optional {
        push_str(&mut label, " (optional)");
    }
    if f.repeatable {
        push_str(&mut label, " (repeatable)");
    }
    let is_bool = str_eq(seg.as_str(), "bool");
    let required = !f.optional && f.default.is_none() && !is_bool && !f.counted;
    let default = match &f.default {
        None => if f.optional {
            to_owned("unset")
        } else {
            to_owned("\u{2014}")
        },
        Some(d) => if f.repeatable && !f.optional {
            to_owned("(empty list)")
        } else {
            d.clone()
        },
    };
    let short = match f.short {
        ShortFlag::Absent => None,
        ShortFlag::Given(c) => Some(c),
        ShortFlag::FromName => {
            let cs = chars_of(f.name.as_str());
            if cs.len() > 0 {
                Some(cs[0])
            } else {
                None
            }
        },
    };
    let doc = doc_text(&f.doc);
    ArgRow { display, short, type_label: label, default, required, doc }
}

/// The views of rows.
pub open spec fn rows_views(v: Seq<ArgRow>) -> Seq<
    (Seq<char>, Option<char>, Seq<char>, Seq<char>, bool, Seq<char>),
> {
    v.map_values(|r: ArgRow| row_view(r))
}

/// Appends the rows of some fields.
fn collect_rows(fields: &Vec<ArgField>, rows: &mut Vec<ArgRow>)
    ensures
        rows_views(final(rows)@) == rows_views(old(rows)@) + rows_of(fields@),
    decreases fields,
{
    let ghost start = rows_views(rows@);
    let mut i: usize = 0;
    assert(fields@.take(0) =~= Seq::<ArgField>::empty());
    assert(start + rows_of(fields@.take(0)) =~= start);
    while i < fields.len()
        invariant
            i <= fields@.len(),
            rows_views(rows@) == start + rows_of(fields@.take(i as int)),
        decreases fields@.len() - i,
    {
        assert(fields@.take(i + 1).drop_last() =~= fields@.take(i as int));
        assert(fields@.take(i + 1).last() == fields@[i as int]);
        collect_field_rows(&fields[i], rows);
        assert(start + rows_of(fields@.take(i + 1)) =~= start + rows_of(fields@.take(i as int))
            + field_rows(fields@[i as int]));
        i = i + 1;
    }
    assert(fields@.take(i as int) =~= fields@);
}

/// Appends the rows of one field.
fn collect_field_rows(f: &ArgField, rows: &mut Vec<ArgRow>)
    ensures
        rows_views(final(rows)@) == rows_views(old(rows)@) + field_rows(*f),
    decreases f,
{
    match f.role {
        ArgRole::Flatten => {
            collect_rows(&f.flattened, rows);
        },
        ArgRole::Named | ArgRole::Positional => {
            let ghost before = rows_views(rows@);
            let row = row_of(f);
            let ghost rv = row_view(row);
            rows.push(row);
            assert(rows_views(rows@) =~= before + seq![rv]);
        },
        _ => {
            assert(rows_views(rows@) =~= rows_views(rows@) + Seq::empty());
        },
    }
}

/// Appends the HTML of one row.
#[verifier::rlimit(50)]
fn push_row(html: &mut String, row: &ArgRow)
    ensures
        final(html)@ == old(html)@ + row_html(row_view(*row)),
{
    let short = match row.short {
        Some(c) => {
            let mut s = String::new();
            crate::text::push_char(&mut s, c);
            s
        },
        None => String::new(),
    };
    let ghost sv = short@;
    assert(sv =~= match row.short {
        Some(c) => seq![c],
        None => Seq::<char>::empty(),
    });
    push_str(html, "<tr><td class=\"flag\"><code>");
    let e = esc(row.display.as_str());
    push_str(html, e.as_str());
    push_str(html, "</code></td><td>");
    let e = esc(short.as_str());
    push_str(html, e.as_str());
    push_str(html, "</td><td>");
    let e = esc(row.type_label.as_str());
    push_str(html, e.as_str());
    push_str(html, "</td><td>");
    let e = esc(row.default.as_str());
    push_str(html, e.as_str());
    push_str(html, "</td><td>");
    if row.required {
        push_str(html, "<span class=\"required\">yes</span>");
    }
    push_str(html, "</td><td>");
    let e = esc(row.doc.as_str());
    push_str(html, e.as_str());
    push_str(html, "</td></tr>\n");
}

/// Appends the table of some rows.
fn push_table(html: &mut String, rows: &Vec<ArgRow>)
    ensures
        final(html)@ == old(html)@ + table_html(rows_views(rows@)),
{
    let ghost start = html@;
    push_str(html, TABLE_HEAD);
    let mut i: usize = 0;
    while i < rows.len()
        invariant
            i <= rows@.len(),
            html@ == start + TABLE_HEAD@ + rows_html(rows_views(rows@).take(i as int)),
        decreases rows@.len() - i,
    {
        assert(rows_views(rows@).take(i + 1).drop_last() =~= rows_views(rows@).take(i as int));
        push_row(html, &rows[i]);
        i = i + 1;
    }
    assert(rows_views(rows@).take(i as int) =~= rows_views(rows@));
    push_str(html, TABLE_END);
}

/// The positional part of a usage line for some rows.
fn positionals(rows: &Vec<ArgRow>) -> (r: String)
    ensures
        r@ == positionals_of(rows_views(rows@)),
{
    let mut out = String::new();
    let mut i: usize = 0;
    while i < rows.len()
        invariant
            i <= rows@.len(),
            out@ == positionals_of(rows_views(rows@).take(i as int)),
        decreases rows@.len() - i,
    {
        assert(rows_views(rows@).take(i + 1).drop_last() =~= rows_views(rows@).take(i as int));
        if str_starts_with(rows[i].display.as_str(), "<") {
            push_str(&mut out, " ");
            push_str(&mut out, rows[i].display.as_str());
        }
        i = i + 1;
    }
    assert(rows_views(rows@).take(i as int) =~= rows_views(rows@));
    out
}

/// Whether some row is a `--` option.
fn any_flag(rows: &Vec<ArgRow>) -> (r: bool)
    ensures
        r == has_flags(rows_views(rows@)),
{
    let mut i: usize = 0;
    while i < rows.len()
        invariant
            i <= rows@.len(),
            forall|j: int| 0 <= j < i ==> !starts_with(#[trigger] rows_views(rows@)[j].0, "--"@),
        decreases rows@.len() - i,
    {
        if str_starts_with(rows[i].display.as_str(), "--") {
            assert(starts_with(rows_views(rows@)[i as int].0, "--"@));
            return true;
        }
        i = i + 1;
    }
    false
}

/// Appends the heading of a subcommand's section.
fn push_subcommand_heading(html: &mut String, program: &str, sub: &SubcommandShape)
    ensures
        final(html)@ == old(html)@ + subcommand_heading(program@, *sub),
{
    let ghost start = html@;
    let name = kebab(sub.name.as_str());
    push_str(html, "<h4 id=\"command-");
    push_str(html, name.as_str());
    push_str(html, "\"><code>");
    let ep = esc(program);
    push_str(html, ep.as_str());
    push_str(html, " ");
    let en = esc(name.as_str());
    push_str(html, en.as_str());
    push_str(html, "</code></h4>\n");
    let doc = doc_text(&sub.doc);
    if !doc.as_str().is_empty() {
        push_str(html, "<p>");
        let ed = esc(doc.as_str());
        push_str(html, ed.as_str());
        push_str(html, "</p>\n");
    }
    assert(html@ =~= start + subcommand_heading(program@, *sub));
}

/// Appends the usage line of a subcommand.
fn push_usage(html: &mut String, program: &str, name: &str, rows: &Vec<ArgRow>)
    ensures
        final(html)@ == old(html)@ + usage_line(program@, name@, rows_views(rows@)),
{
    let ghost start = html@;
    push_str(html, "<p class=\"note\">Usage: <code>");
    let ep = esc(program);
    push_str(html, ep.as_str());
    push_str(html, " ");
    let en = esc(name);
    push_str(html, en.as_str());
    if any_flag(rows) {
        push_str(html, " [OPTIONS]");
    }
    let pos = positionals(rows);
    let epos = esc(pos.as_str());
    push_str(html, epos.as_str());
    push_str(html, "</code></p>\n");
    assert(html@ =~= start + usage_line(program@, name@, rows_views(rows@)));
}

/// Appends the section of one subcommand.
fn push_subcommand(html: &mut String, program: &str, sub: &SubcommandShape)
    ensures
        final(html)@ == old(html)@ + subcommand_html(program@, *sub),
{
    let ghost start = html@;
    push_subcommand_heading(html, program, sub);
    let ghost a = html@;
    let name = kebab(sub.name.as_str());
    let mut rows: Vec<ArgRow> = Vec::new();
    collect_rows(&sub.fields, &mut rows);
    assert(rows_views(rows@) =~= rows_of(sub.fields@));
    push_usage(html, program, name.as_str(), &rows);
    let ghost b = html@;
    push_table(html, &rows);
    assert(html@ =~= start + subcommand_html(program@, *sub));
}

/// Appends the start of a binary's section.
fn push_binary_head(html: &mut String, shape: &BinaryShape)
    ensures
        final(html)@ == old(html)@ + binary_head(*shape),
{
    let ghost start = html@;
    let id = kebab(shape.program.as_str());
    push_str(html, "<section id=\"");
    push_str(html, id.as_str());
    push_str(html, "\">\n<h2><code>");
    let ep = esc(shape.program.as_str());
    push_str(html, ep.as_str());
    push_str(html, "</code></h2>\n<p>");
    let ea = esc(shape.about.as_str());
    push_str(html, ea.as_str());
    push_str(html, "</p>\n");
    push_str(html, "<h3>Options</h3>\n");
    assert(html@ =~= start + binary_head(*shape));
}

/// Appends the sections of some subcommands.
fn push_subcommands(html: &mut String, program: &str, subs: &Vec<SubcommandShape>)
    ensures
        final(html)@ == old(html)@ + subcommands_html(program@, subs@),
{
    let ghost base = html@;
    let mut i: usize = 0;
    assert(subs@.take(0) =~= Seq::<SubcommandShape>::empty());
    assert(base + subcommands_html(program@, subs@.take(0)) =~= base);
    while i < subs.len()
        invariant
            i <= subs@.len(),
            html@ == base + subcommands_html(program@, subs@.take(i as int)),
        decreases subs@.len() - i,
    {
        assert(subs@.take(i + 1).drop_last() =~= subs@.take(i as int));
        assert(subs@.take(i + 1).last() == subs@[i as int]);
        push_subcommand(html, program, &subs[i]);
        assert(html@ =~= base + subcommands_html(program@, subs@.take(i + 1)));
        i = i + 1;
    }
    assert(subs@.take(i as int) =~= subs@);
}

/// Appends the section of one binary.
#[verifier::rlimit(40)]
fn push_binary(html: &mut String, shape: &BinaryShape)
    ensures
        final(html)@ == old(html)@ + binary_html(*shape),
{
    let ghost start = html@;
    push_binary_head(html, shape);
    let ghost head = html@;
    let mut rows: Vec<ArgRow> = Vec::new();
    collect_rows(&shape.fields, &mut rows);
    assert(rows_views(rows@) =~= rows_of(shape.fields@));
    push_table(html, &rows);
    let ghost mid = html@;
    assert(mid == head + table_html(rows_of(shape.fields@)));
    push_subcommands_part(html, shape);
    let ghost subs_done = html@;
    push_str(html, "</section>\n");
    proof {
        let a = binary_head(*shape);
        let b = table_html(rows_of(shape.fields@));
        let c = subcommands_part(shape.program@, shape.subcommands);
        assert(head == start + a);
        assert(subs_done == mid + c);
        assert(html@ =~= start + (a + b + c + "</section>\n"@));
    }
}

/// Appends the subcommand part of a binary's section.
fn push_subcommands_part(html: &mut String, shape: &BinaryShape)
    ensures
        final(html)@ == old(html)@ + subcommands_part(shape.program@, shape.subcommands),
{
    let ghost start = html@;
    match &shape.subcommands {
        Some(subs) => {
            push_str(html, "<h3>Subcommands</h3>\n");
            push_str(html, "<p>Global options are also accepted after the subcommand name.</p>\n");
            push_subcommands(html, shape.program.as_str(), subs);
        },
        None => {},
    }
    assert(html@ =~= start + subcommands_part(shape.program@, shape.subcommands));
}

/// Appends the environment section.
fn push_env(html: &mut String, fields: &Vec<ArgField>)
    ensures
        final(html)@ == old(html)@ + env_html(fields@),
{
    let ghost start = html@;
    push_str(html, ENV_HEAD);
    let mut i: usize = 0;
    while i < fields.len()
        invariant
            i <= fields@.len(),
            html@ == start + ENV_HEAD@ + env_fields_html(fields@.take(i as int)),
        decreases fields@.len() - i,
    {
        assert(fields@.take(i + 1).drop_last() =~= fields@.take(i as int));
        assert(fields@.take(i + 1).last() == fields@[i as int]);
        let field = &fields[i];
        let doc = doc_text(&field.doc);
        let ed = esc(doc.as_str());
        let ghost base = html@;
        let ghost aliases = strings_view(field.env_aliases@);
        let mut j: usize = 0;
        while j < field.env_aliases.len()
            invariant
                j <= aliases.len(),
                aliases == strings_view(field.env_aliases@),
                ed@ == esc_spec(doc_text_spec(strings_view(field.doc@))),
                html@ == base + alias_rows_html(aliases.take(j as int), doc_text_spec(strings_view(field.doc@))),
            decreases aliases.len() - j,
        {
            assert(aliases.take(j + 1).drop_last() =~= aliases.take(j as int));
            push_str(html, "<tr><td class=\"flag\"><code>");
            let ea = esc(field.env_aliases[j].as_str());
            push_str(html, ea.as_str());
            push_str(html, "</code></td><td>both binaries</td><td><code>--index-dir</code></td><td>");
            push_str(html, ed.as_str());
            push_str(html, "</td></tr>\n");
            j = j + 1;
        }
        assert(aliases.take(j as int) =~= aliases);
        i = i + 1;
    }
    assert(fields@.take(i as int) =~= fields@);
    push_str(html, CURATED_ENV_ROWS);
    push_str(html, ENV_END);
}

/// Renders the page for the shapes of the two binaries and the fields of
/// the environment layer.
pub fn render_page(cli: &BinaryShape, mcp: &BinaryShape, env: &Vec<ArgField>) -> (r: String)
    ensures
        r@ == page_spec(*cli, *mcp, env@),
{
    let mut html = to_owned(PAGE_START);
    push_str(&mut html, CSS);
    push_str(&mut html, BODY_START);
    push_str(&mut html, "<h1>");
    let a = esc(cli.program.as_str());
    push_str(&mut html, a.as_str());
    push_str(&mut html, " &amp; ");
    let b = esc(mcp.program.as_str());
    push_str(&mut html, b.as_str());
    push_str(&mut html, " configuration reference</h1>\n");
    push_str(&mut html, INTRO);
    push_binary(&mut html, cli);
    push_binary(&mut html, mcp);
    push_env(&mut html, env);
    push_str(&mut html, PAGE_END);
    html
}

/// The plain values of an argument field, with those of the fields it
/// flattens.
#[verifier::ext_equal]
pub struct FieldView {
    pub name: Seq<char>,
    pub role: ArgRole,
    pub short: ShortFlag,
    pub type_identifier: Seq<char>,
    pub optional: bool,
    pub repeatable: bool,
    pub default: Option<Seq<char>>,
    pub counted: bool,
    pub doc: Seq<Seq<char>>,
    pub env_aliases: Seq<Seq<char>>,
    pub flattened: Seq<FieldView>,
}

/// The view of an argument field.
pub open spec fn field_view(f: ArgField) -> FieldView
    decreases f,
{
    FieldView {
        name: f.name@,
        role: f.role,
        short: f.short,
        type_identifier: f.type_identifier@,
        optional: f.optional,
        repeatable: f.repeatable,
        default: crate::text::opt_string_view(f.default),
        counted: f.counted,
        doc: strings_view(f.doc@),
        env_aliases: strings_view(f.env_aliases@),
        flattened: children_view(f.flattened@),
    }
}

/// The views of the fields a field flattens, in order.
pub open spec fn children_view(s: Seq<ArgField>) -> Seq<FieldView>
    decreases s,
{
    if s.len() == 0 {
        Seq::empty()
    } else {
        children_view(s.drop_last()).push(field_view(s.last()))
    }
}

proof fn lemma_children_view(s: Seq<ArgField>)
    ensures
        children_view(s) == fields_view(s),
    decreases s.len(),
{
    if s.len() > 0 {
        lemma_children_view(s.drop_last());
        assert(fields_view(s) =~= fields_view(s.drop_last()).push(field_view(s.last())));
    } else {
        assert(fields_view(s) =~= Seq::<FieldView>::empty());
    }
}

/// The views of some argument fields.
pub open spec fn fields_view(v: Seq<ArgField>) -> Seq<FieldView> {
    v.map_values(|f: ArgField| field_view(f))
}

/// A `--name` option with a one-line doc comment and no environment alias.
pub open spec fn named_view(
    name: Seq<char>,
    short: ShortFlag,
    type_identifier: Seq<char>,
    optional: bool,
    repeatable: bool,
    default: Option<Seq<char>>,
    doc: Seq<char>,
) -> FieldView {
    FieldView {
        name,
        role: ArgRole::Named,
        short,
        type_identifier,
        optional,
        repeatable,
        default,
        counted: false,
        doc: seq![doc],
        env_aliases: Seq::empty(),
        flattened: Seq::empty(),
    }
}

/// A `--name` switch that defaults to off.
pub open spec fn switch_view(name: Seq<char>, short: ShortFlag, doc: Seq<char>) -> FieldView {
    named_view(name, short, "bool"@, false, false, Some("false"@), doc)
}

/// A positional argument with a one-line doc comment.
pub open spec fn positional_view(name: Seq<char>, type_identifier: Seq<char>, doc: Seq<char>) -> FieldView {
    FieldView {
        name,
        role: ArgRole::Positional,
        short: ShortFlag::Absent,
        type_identifier,
        optional: false,
        repeatable: false,
        default: None,
        counted: false,
        doc: seq![doc],
        env_aliases: Seq::empty(),
        flattened: Seq::empty(),
    }
}

/// A flattened struct named `name` holding fields of views `fields`.
pub open spec fn flattened_view(name: Seq<char>, fields: Seq<FieldView>) -> FieldView {
    FieldView {
        name,
        role: ArgRole::Flatten,
        short: ShortFlag::Absent,
        type_identifier: name,
        optional: false,
        repeatable: false,
        default: None,
        counted: false,
        doc: Seq::empty(),
        env_aliases: Seq::empty(),
        flattened: fields,
    }
}

/// The subcommand selector.
pub open spec fn selector_view() -> FieldView {
    FieldView {
        name: "command"@,
        role: ArgRole::Subcommand,
        short: ShortFlag::Absent,
        type_identifier: "Command"@,
        optional: false,
        repeatable: false,
        default: None,
        counted: false,
        doc: Seq::empty(),
        env_aliases: Seq::empty(),
        flattened: Seq::empty(),
    }
}

/// `v` with the environment aliases `aliases`.
pub open spec fn aliased(v: FieldView, aliases: Seq<Seq<char>>) -> FieldView {
    FieldView {
        name: v.name,
        role: v.role,
        short: v.short,
        type_identifier: v.type_identifier,
        optional: v.optional,
        repeatable: v.repeatable,
        default: v.default,
        counted: v.counted,
        doc: v.doc,
        env_aliases: aliases,
        flattened: v.flattened,
    }
}

/// The workspace configuration fields.
pub open spec fn workspace_config_views() -> Seq<FieldView> {
    seq![
        aliased(
            named_view(
                "manifest_path"@,
                ShortFlag::Absent,
                "std::path::PathBuf"@,
                true,
                false,
                None,
                "Path to a Cargo.toml manifest. Defaults to the current directory."@,
            ),
            seq!["RUST_KNOWLEDGE_MANIFEST_PATH"@],
        ),
        aliased(
            named_view(
                "index_dir"@,
                ShortFlag::Absent,
                "std::path::PathBuf"@,
                true,
                false,
                None,
                "Directory for the knowledge index. Defaults to <workspace>/.rust-knowledge or $RUST_KNOWLEDGE_INDEX_DIR."@,
            ),
            seq!["RUST_KNOWLEDGE_INDEX_DIR"@],
        ),
        aliased(
            named_view(
                "cargo"@,
                ShortFlag::Absent,
                "std::path::PathBuf"@,
                true,
                false,
                None,
                "Explicit cargo binary for metadata/rustdoc invocations. Defaults to $RUST_KNOWLEDGE_CARGO, or cargo on $PATH."@,
            ),
            seq!["RUST_KNOWLEDGE_CARGO"@],
        ),
        aliased(
            named_view(
                "log"@,
                ShortFlag::Absent,
                "alloc::string::String"@,
                false,
                false,
                Some("info"@),
                "Tracing env-filter (e.g. \"info\", \"demo_core=debug\"). -v overrides it with \"debug\"."@,
            ),
            seq!["RUST_KNOWLEDGE_LOG"@, "RUST_LOG"@],
        ),
    ]
}

/// The standard options of the argument parser.
pub open spec fn builtin_views() -> Seq<FieldView> {
    seq![
        switch_view("help"@, ShortFlag::Given('h'), "Show help message and exit."@),
        switch_view("html_help"@, ShortFlag::Absent, "Open HTML help in the browser and exit."@),
        switch_view("version"@, ShortFlag::Given('V'), "Show version and exit."@),
        named_view(
            "completions"@,
            ShortFlag::Absent,
            "figue::Shell"@,
            true,
            false,
            Some("None"@),
            "Generate shell completions."@,
        ),
        named_view(
            "export_jsonschemas"@,
            ShortFlag::Absent,
            "alloc::string::String"@,
            true,
            false,
            Some("None"@),
            "Export JSON Schema files for all config roots."@,
        ),
    ]
}

/// The rustdoc scope option.
pub open spec fn scope_view() -> FieldView {
    named_view(
        "rustdoc_scope"@,
        ShortFlag::Absent,
        "alloc::string::String"@,
        false,
        false,
        Some("workspace"@),
        "Which packages get rustdoc JSON generated."@,
    )
}

/// The prebuilt-artifact option.
pub open spec fn prebuilt_view() -> FieldView {
    named_view(
        "prebuilt_rustdoc"@,
        ShortFlag::Absent,
        "std::path::PathBuf"@,
        true,
        false,
        None,
        "Read prebuilt rustdoc JSON artifacts from this directory instead of invoking cargo."@,
    )
}

/// The repeatable package filter.
pub open spec fn package_filter_view() -> FieldView {
    named_view(
        "package"@,
        ShortFlag::Absent,
        "alloc::string::String"@,
        false,
        true,
        Some("[]"@),
        "Restrict to these packages (name or name@version). Repeatable."@,
    )
}

/// The plain values of a subcommand: its name, doc-comment lines and
/// fields.
pub open spec fn subcommand_view(s: SubcommandShape) -> (Seq<char>, Seq<Seq<char>>, Seq<FieldView>) {
    (s.name@, strings_view(s.doc@), fields_view(s.fields@))
}

/// The subcommands of `rust-knowledge`.
pub open spec fn cli_subcommand_views() -> Seq<(Seq<char>, Seq<Seq<char>>, Seq<FieldView>)> {
    seq![
        (
            "Packages"@,
            seq!["List the packages in the resolved Cargo dependency universe."@],
            seq![switch_view("json"@, ShortFlag::Absent, "Emit JSON (one object per line)."@)],
        ),
        (
            "DumpDocs"@,
            seq!["Build the normalized documentation corpus and print it (debug view)."@],
            seq![
                named_view(
                    "package"@,
                    ShortFlag::Absent,
                    "alloc::string::String"@,
                    true,
                    false,
                    None,
                    "Only documents of this package (name or name@version)."@,
                ),
                scope_view(),
                prebuilt_view(),
                switch_view("json"@, ShortFlag::Absent, "Emit one JSON document per line."@),
            ],
        ),
        (
            "Index"@,
            seq!["Build the persistent knowledge index for the workspace."@],
            seq![
                scope_view(),
                named_view(
                    "toolchain"@,
                    ShortFlag::Absent,
                    "alloc::string::String"@,
                    true,
                    false,
                    None,
                    "Toolchain used for rustdoc generation (default: nightly)."@,
                ),
                prebuilt_view(),
            ],
        ),
        (
            "Search"@,
            seq!["Search the knowledge index."@],
            seq![
                positional_view(
                    "query"@,
                    "alloc::string::String"@,
                    "Free-form query: natural language or Rust identifiers."@,
                ),
                package_filter_view(),
                named_view(
                    "source-kind"@,
                    ShortFlag::Absent,
                    "alloc::string::String"@,
                    false,
                    true,
                    Some("[]"@),
                    "Restrict to source kinds (rustdoc_item, rustdoc_module, crate_readme, markdown_document). Repeatable."@,
                ),
                named_view(
                    "item-kind"@,
                    ShortFlag::Absent,
                    "alloc::string::String"@,
                    false,
                    true,
                    Some("[]"@),
                    "Restrict to item kinds (function, struct, trait, ...). Repeatable."@,
                ),
                named_view(
                    "limit"@,
                    ShortFlag::Absent,
                    "usize"@,
                    false,
                    false,
                    Some("8"@),
                    "Maximum number of results."@,
                ),
                switch_view("json"@, ShortFlag::Absent, "Emit JSON (one hit per line)."@),
            ],
        ),
        (
            "Get"@,
            seq!["Retrieve one document by its stable id."@],
            seq![
                positional_view(
                    "id"@,
                    "alloc::string::String"@,
                    "Document id (as printed by search)."@,
                ),
                switch_view("json"@, ShortFlag::Absent, "Emit the full JSON document."@),
            ],
        ),
        (
            "Symbol"@,
            seq!["Look up a symbol by (partial) path."@],
            seq![
                positional_view(
                    "symbol"@,
                    "alloc::string::String"@,
                    "Symbol path or last segment, e.g. demo_core::writer::Writer::flush or spawn_blocking."@,
                ),
                package_filter_view(),
                switch_view("json"@, ShortFlag::Absent, "Emit JSON (one entry per line)."@),
            ],
        ),
        (
            "Eval"@,
            seq!["Run the retrieval evaluation set against the knowledge index."@],
            seq![
                positional_view(
                    "file"@,
                    "std::path::PathBuf"@,
                    "Path to the eval file (TOML, [[case]] entries)."@,
                ),
            ],
        ),
        (
            "ConfigDocs"@,
            seq!["Write this HTML configuration reference page."@],
            seq![
                named_view(
                    "out"@,
                    ShortFlag::Absent,
                    "std::path::PathBuf"@,
                    false,
                    false,
                    Some("docs/config-reference.html"@),
                    "Output file."@,
                ),
            ],
        ),
    ]
}

/// The fields of the environment layer.
pub open spec fn environment_views() -> Seq<FieldView> {
    seq![
        aliased(
            named_view(
                "index_dir"@,
                ShortFlag::Absent,
                "std::path::PathBuf"@,
                true,
                false,
                None,
                "Knowledge index directory used when --index-dir is not given."@,
            ),
            seq!["RUST_KNOWLEDGE_INDEX_DIR"@],
        ),
    ]
}

/// The plain values of a binary's argument shape.
#[verifier::ext_equal]
pub struct BinaryView {
    pub program: Seq<char>,
    pub about: Seq<char>,
    pub fields: Seq<FieldView>,
    pub subcommands: Option<Seq<(Seq<char>, Seq<Seq<char>>, Seq<FieldView>)>>,
}

/// The views of some subcommands.
pub open spec fn subcommands_view(subs: Seq<SubcommandShape>) -> Seq<
    (Seq<char>, Seq<Seq<char>>, Seq<FieldView>),
> {
    subs.map_values(|s: SubcommandShape| subcommand_view(s))
}

/// The view of a binary's argument shape.
pub open spec fn binary_view(b: BinaryShape) -> BinaryView {
    BinaryView {
        program: b.program@,
        about: b.about@,
        fields: fields_view(b.fields@),
        subcommands: match b.subcommands {
            Some(subs) => Some(subcommands_view(subs@)),
            None => None,
        },
    }
}

/// The shape of `rust-knowledge`: the workspace configuration, `--verbose`
/// and the parser's standard options, then the subcommand selector.
pub open spec fn cli_binary_view() -> BinaryView {
    BinaryView {
        program: "rust-knowledge"@,
        about: "Search documentation of the resolved Cargo dependency universe of a workspace"@,
        fields: seq![
            flattened_view("WorkspaceConfig"@, workspace_config_views()),
            switch_view("verbose"@, ShortFlag::Given('v'), "Verbose logging."@),
            flattened_view("FigueBuiltins"@, builtin_views()),
            selector_view(),
        ],
        subcommands: Some(cli_subcommand_views()),
    }
}

/// The shape of `knowledge-mcp`: the workspace configuration and the
/// parser's standard options, with no subcommands.
pub open spec fn mcp_binary_view() -> BinaryView {
    BinaryView {
        program: "knowledge-mcp"@,
        about: "MCP server exposing the rust-knowledge retrieval engine"@,
        fields: seq![
            flattened_view("WorkspaceConfig"@, workspace_config_views()),
            flattened_view("FigueBuiltins"@, builtin_views()),
        ],
        subcommands: None,
    }
}

/// The configuration reference page: the page of shapes of the two
/// binaries and of the environment layer that have the views above.
pub open spec fn reference_page() -> Seq<char> {
    let (cli, mcp, env) = choose|cli: BinaryShape, mcp: BinaryShape, env: Seq<ArgField>|
        binary_view(cli) == cli_binary_view() && binary_view(mcp) == mcp_binary_view()
            && fields_view(env) == environment_views();
    page_spec(cli, mcp, env)
}

proof fn lemma_field_rows_view(f: ArgField, g: ArgField)
    requires
        field_view(f) == field_view(g),
    ensures
        field_rows(f) == field_rows(g),
    decreases f,
{
    match f.role {
        ArgRole::Flatten => {
            lemma_children_view(f.flattened@);
            lemma_children_view(g.flattened@);
            lemma_rows_of_view(f.flattened@, g.flattened@);
        },
        ArgRole::Named | ArgRole::Positional => {
            assert(default_of(f) == default_of(g));
            assert(row_spec(f) == row_spec(g));
        },
        _ => {},
    }
}

proof fn lemma_rows_of_view(a: Seq<ArgField>, b: Seq<ArgField>)
    requires
        fields_view(a) == fields_view(b),
    ensures
        rows_of(a) == rows_of(b),
    decreases a,
{
    assert(a.len() == fields_view(a).len() && b.len() == fields_view(b).len());
    if a.len() > 0 {
        let n = a.len() - 1;
        assert(fields_view(a.drop_last()) =~= fields_view(a).drop_last());
        assert(fields_view(b.drop_last()) =~= fields_view(b).drop_last());
        assert(field_view(a.last()) == fields_view(a)[n]);
        assert(field_view(b.last()) == fields_view(b)[n]);
        lemma_rows_of_view(a.drop_last(), b.drop_last());
        lemma_field_rows_view(a.last(), b.last());
    }
}

proof fn lemma_subcommands_view(p: Seq<char>, a: Seq<SubcommandShape>, b: Seq<SubcommandShape>)
    requires
        subcommands_view(a) == subcommands_view(b),
    ensures
        subcommands_html(p, a) == subcommands_html(p, b),
    decreases a.len(),
{
    assert(a.len() == subcommands_view(a).len() && b.len() == subcommands_view(b).len());
    if a.len() > 0 {
        let n = a.len() - 1;
        assert(subcommands_view(a.drop_last()) =~= subcommands_view(a).drop_last());
        assert(subcommands_view(b.drop_last()) =~= subcommands_view(b).drop_last());
        assert(subcommand_view(a.last()) == subcommands_view(a)[n]);
        assert(subcommand_view(b.last()) == subcommands_view(b)[n]);
        lemma_subcommands_view(p, a.drop_last(), b.drop_last());
        lemma_rows_of_view(a.last().fields@, b.last().fields@);
    }
}

proof fn lemma_env_view(a: Seq<ArgField>, b: Seq<ArgField>)
    requires
        fields_view(a) == fields_view(b),
    ensures
        env_fields_html(a) == env_fields_html(b),
    decreases a.len(),
{
    assert(a.len() == fields_view(a).len() && b.len() == fields_view(b).len());
    if a.len() > 0 {
        let n = a.len() - 1;
        assert(fields_view(a.drop_last()) =~= fields_view(a).drop_last());
        assert(fields_view(b.drop_last()) =~= fields_view(b).drop_last());
        assert(field_view(a.last()) == fields_view(a)[n]);
        assert(field_view(b.last()) == fields_view(b)[n]);
        lemma_env_view(a.drop_last(), b.drop_last());
    }
}

proof fn lemma_binary_view(a: BinaryShape, b: BinaryShape)
    requires
        binary_view(a) == binary_view(b),
    ensures
        binary_html(a) == binary_html(b),
{
    lemma_rows_of_view(a.fields@, b.fields@);
    match (a.subcommands, b.subcommands) {
        (Some(x), Some(y)) => lemma_subcommands_view(a.program@, x@, y@),
        _ => {},
    }
    assert(subcommands_part(a.program@, a.subcommands) == subcommands_part(b.program@, b.subcommands));
}

/// The page is a function of what the shapes hold: shapes of the two
/// binaries and environment fields with the same views render to the same
/// page.
pub proof fn law_page_depends_only_on_views(
    cli1: BinaryShape,
    cli2: BinaryShape,
    mcp1: BinaryShape,
    mcp2: BinaryShape,
    env1: Seq<ArgField>,
    env2: Seq<ArgField>,
)
    requires
        binary_view(cli1) == binary_view(cli2),
        binary_view(mcp1) == binary_view(mcp2),
        fields_view(env1) == fields_view(env2),
    ensures
        page_spec(cli1, mcp1, env1) == page_spec(cli2, mcp2, env2),
{
    lemma_binary_view(cli1, cli2);
    lemma_binary_view(mcp1, mcp2);
    lemma_env_view(env1, env2);
}

/// A one-line doc comment.
fn doc_line(text: &str) -> (r: Vec<String>)
    ensures
        strings_view(r@) == seq![text@],
{
    let mut v: Vec<String> = Vec::new();
    v.push(to_owned(text));
    assert(strings_view(v@) =~= seq![text@]);
    v
}

/// A `--name` option.
fn named(
    name: &str,
    short: ShortFlag,
    type_identifier: &str,
    optional: bool,
    repeatable: bool,
    default: Option<&str>,
    doc: &str,
) -> (r: ArgField)
    ensures
        field_view(r) == named_view(
            name@,
            short,
            type_identifier@,
            optional,
            repeatable,
            crate::text::opt_view(default),
            doc@,
        ),
{
    let r = ArgField {
        name: to_owned(name),
        role: ArgRole::Named,
        flattened: Vec::new(),
        short,
        type_identifier: to_owned(type_identifier),
        optional,
        repeatable,
        default: match default {
            Some(d) => Some(to_owned(d)),
            None => None,
        },
        counted: false,
        doc: doc_line(doc),
        env_aliases: Vec::new(),
    };
    assert(strings_view(r.env_aliases@) =~= Seq::<Seq<char>>::empty());
    assert(field_view(r) =~= named_view(
        name@,
        short,
        type_identifier@,
        optional,
        repeatable,
        crate::text::opt_view(default),
        doc@,
    ));
    r
}

/// A switch that defaults to off.
fn switch(name: &str, short: ShortFlag, doc: &str) -> (r: ArgField)
    ensures
        field_view(r) == switch_view(name@, short, doc@),
{
    named(name, short, "bool", false, false, Some("false"), doc)
}

/// A positional argument.
fn positional(name: &str, type_identifier: &str, doc: &str) -> (r: ArgField)
    ensures
        field_view(r) == positional_view(name@, type_identifier@, doc@),
{
    let r = ArgField {
        name: to_owned(name),
        role: ArgRole::Positional,
        flattened: Vec::new(),
        short: ShortFlag::Absent,
        type_identifier: to_owned(type_identifier),
        optional: false,
        repeatable: false,
        default: None,
        counted: false,
        doc: doc_line(doc),
        env_aliases: Vec::new(),
    };
    assert(strings_view(r.env_aliases@) =~= Seq::<Seq<char>>::empty());
    assert(field_view(r) =~= positional_view(name@, type_identifier@, doc@));
    r
}

/// A flattened struct.
fn flattened(name: &str, fields: Vec<ArgField>) -> (r: ArgField)
    ensures
        field_view(r) == flattened_view(name@, fields_view(fields@)),
        r.flattened == fields,
{
    let ghost n = fields_view(fields@);
    proof {
        lemma_children_view(fields@);
    }
    let r = ArgField {
        name: to_owned(name),
        role: ArgRole::Flatten,
        flattened: fields,
        short: ShortFlag::Absent,
        type_identifier: to_owned(name),
        optional: false,
        repeatable: false,
        default: None,
        counted: false,
        doc: Vec::new(),
        env_aliases: Vec::new(),
    };
    assert(strings_view(r.env_aliases@) =~= Seq::<Seq<char>>::empty());
    assert(strings_view(r.doc@) =~= Seq::<Seq<char>>::empty());
    assert(field_view(r) =~= flattened_view(name@, n));
    r
}

/// The subcommand selector.
fn selector() -> (r: ArgField)
    ensures
        field_view(r) == selector_view(),
{
    let r = ArgField {
        name: to_owned("command"),
        role: ArgRole::Subcommand,
        flattened: Vec::new(),
        short: ShortFlag::Absent,
        type_identifier: to_owned("Command"),
        optional: false,
        repeatable: false,
        default: None,
        counted: false,
        doc: Vec::new(),
        env_aliases: Vec::new(),
    };
    assert(strings_view(r.env_aliases@) =~= Seq::<Seq<char>>::empty());
    assert(strings_view(r.doc@) =~= Seq::<Seq<char>>::empty());
    assert(field_view(r) =~= selector_view());
    r
}

/// Adds an environment alias to a field.
fn add_alias(f: &mut ArgField, alias: &str)
    ensures
        field_view(*final(f)) == aliased(
            field_view(*old(f)),
            field_view(*old(f)).env_aliases.push(alias@),
        ),
{
    let ghost before = strings_view(f.env_aliases@);
    f.env_aliases.push(to_owned(alias));
    assert(strings_view(f.env_aliases@) =~= before.push(alias@));
    assert(field_view(*f) =~= aliased(field_view(*old(f)), before.push(alias@)));
}

/// The workspace configuration both binaries flatten into their options.
fn workspace_config_fields() -> (r: Vec<ArgField>)
    ensures
        fields_view(r@) == workspace_config_views(),
{
    let mut manifest = named(
        "manifest_path",
        ShortFlag::Absent,
        "std::path::PathBuf",
        true,
        false,
        None,
        "Path to a Cargo.toml manifest. Defaults to the current directory.",
    );
    add_alias(&mut manifest, "RUST_KNOWLEDGE_MANIFEST_PATH");
    let mut index_dir = named(
        "index_dir",
        ShortFlag::Absent,
        "std::path::PathBuf",
        true,
        false,
        None,
        "Directory for the knowledge index. Defaults to <workspace>/.rust-knowledge or $RUST_KNOWLEDGE_INDEX_DIR.",
    );
    add_alias(&mut index_dir, "RUST_KNOWLEDGE_INDEX_DIR");
    let mut cargo = named(
        "cargo",
        ShortFlag::Absent,
        "std::path::PathBuf",
        true,
        false,
        None,
        "Explicit cargo binary for metadata/rustdoc invocations. Defaults to $RUST_KNOWLEDGE_CARGO, or cargo on $PATH.",
    );
    add_alias(&mut cargo, "RUST_KNOWLEDGE_CARGO");
    let mut log = named(
        "log",
        ShortFlag::Absent,
        "alloc::string::String",
        false,
        false,
        Some("info"),
        "Tracing env-filter (e.g. \"info\", \"demo_core=debug\"). -v overrides it with \"debug\".",
    );
    add_alias(&mut log, "RUST_KNOWLEDGE_LOG");
    add_alias(&mut log, "RUST_LOG");
    let r = vec![manifest, index_dir, cargo, log];
    assert(seq!["RUST_KNOWLEDGE_LOG"@].push("RUST_LOG"@) =~= seq!["RUST_KNOWLEDGE_LOG"@, "RUST_LOG"@]);
    assert(Seq::<Seq<char>>::empty().push("RUST_KNOWLEDGE_LOG"@) =~= seq!["RUST_KNOWLEDGE_LOG"@]);
    assert(Seq::<Seq<char>>::empty().push("RUST_KNOWLEDGE_MANIFEST_PATH"@) =~= seq![
        "RUST_KNOWLEDGE_MANIFEST_PATH"@,
    ]);
    assert(Seq::<Seq<char>>::empty().push("RUST_KNOWLEDGE_INDEX_DIR"@) =~= seq![
        "RUST_KNOWLEDGE_INDEX_DIR"@,
    ]);
    assert(Seq::<Seq<char>>::empty().push("RUST_KNOWLEDGE_CARGO"@) =~= seq!["RUST_KNOWLEDGE_CARGO"@]);
    assert(fields_view(r@) =~= workspace_config_views());
    r
}

/// The standard options of the argument parser.
fn builtin_fields() -> (r: Vec<ArgField>)
    ensures
        fields_view(r@) == builtin_views(),
{
    let r = vec![
        switch("help", ShortFlag::Given('h'), "Show help message and exit."),
        switch("html_help", ShortFlag::Absent, "Open HTML help in the browser and exit."),
        switch("version", ShortFlag::Given('V'), "Show version and exit."),
        named(
            "completions",
            ShortFlag::Absent,
            "figue::Shell",
            true,
            false,
            Some("None"),
            "Generate shell completions.",
        ),
        named(
            "export_jsonschemas",
            ShortFlag::Absent,
            "alloc::string::String",
            true,
            false,
            Some("None"),
            "Export JSON Schema files for all config roots.",
        ),
    ];
    assert(fields_view(r@) =~= builtin_views());
    r
}

/// A subcommand.
fn subcommand(name: &str, doc: &str, fields: Vec<ArgField>) -> (r: SubcommandShape)
    ensures
        subcommand_view(r) == (name@, seq![doc@], fields_view(fields@)),
        r.fields == fields,
{
    SubcommandShape { name: to_owned(name), doc: doc_line(doc), fields }
}

/// The rustdoc scope option of the corpus-building subcommands.
fn scope_option() -> (r: ArgField)
    ensures
        field_view(r) == scope_view(),
{
    named(
        "rustdoc_scope",
        ShortFlag::Absent,
        "alloc::string::String",
        false,
        false,
        Some("workspace"),
        "Which packages get rustdoc JSON generated.",
    )
}

/// The prebuilt-artifact option of the corpus-building subcommands.
fn prebuilt_option() -> (r: ArgField)
    ensures
        field_view(r) == prebuilt_view(),
{
    named(
        "prebuilt_rustdoc",
        ShortFlag::Absent,
        "std::path::PathBuf",
        true,
        false,
        None,
        "Read prebuilt rustdoc JSON artifacts from this directory instead of invoking cargo.",
    )
}

/// A repeatable package filter.
fn package_filter() -> (r: ArgField)
    ensures
        field_view(r) == package_filter_view(),
{
    named(
        "package",
        ShortFlag::Absent,
        "alloc::string::String",
        false,
        true,
        Some("[]"),
        "Restrict to these packages (name or name@version). Repeatable.",
    )
}

/// The subcommands of `rust-knowledge`.
#[verifier::rlimit(50)]
fn cli_subcommands() -> (r: Vec<SubcommandShape>)
    ensures
        r@.map_values(|s: SubcommandShape| subcommand_view(s)) == cli_subcommand_views(),
{
    let v = vec![switch("json", ShortFlag::Absent, "Emit JSON (one object per line).")];
    let packages = subcommand(
        "Packages",
        "List the packages in the resolved Cargo dependency universe.",
        v,
    );
    let v = vec![
        named(
            "package",
            ShortFlag::Absent,
            "alloc::string::String",
            true,
            false,
            None,
            "Only documents of this package (name or name@version).",
        ),
        scope_option(),
        prebuilt_option(),
        switch("json", ShortFlag::Absent, "Emit one JSON document per line."),
    ];
    let dump_docs = subcommand(
        "DumpDocs",
        "Build the normalized documentation corpus and print it (debug view).",
        v,
    );
    let v = vec![
        scope_option(),
        named(
            "toolchain",
            ShortFlag::Absent,
            "alloc::string::String",
            true,
            false,
            None,
            "Toolchain used for rustdoc generation (default: nightly).",
        ),
        prebuilt_option(),
    ];
    let index = subcommand("Index", "Build the persistent knowledge index for the workspace.", v);
    let v = vec![
        positional(
            "query",
            "alloc::string::String",
            "Free-form query: natural language or Rust identifiers.",
        ),
        package_filter(),
        named(
            "source-kind",
            ShortFlag::Absent,
            "alloc::string::String",
            false,
            true,
            Some("[]"),
            "Restrict to source kinds (rustdoc_item, rustdoc_module, crate_readme, markdown_document). Repeatable.",
        ),
        named(
            "item-kind",
            ShortFlag::Absent,
            "alloc::string::String",
            false,
            true,
            Some("[]"),
            "Restrict to item kinds (function, struct, trait, ...). Repeatable.",
        ),
        named(
            "limit",
            ShortFlag::Absent,
            "usize",
            false,
            false,
            Some("8"),
            "Maximum number of results.",
        ),
        switch("json", ShortFlag::Absent, "Emit JSON (one hit per line)."),
    ];
    let search = subcommand("Search", "Search the knowledge index.", v);
    let v = vec![
        positional("id", "alloc::string::String", "Document id (as printed by search)."),
        switch("json", ShortFlag::Absent, "Emit the full JSON document."),
    ];
    let get = subcommand("Get", "Retrieve one document by its stable id.", v);
    let v = vec![
        positional(
            "symbol",
            "alloc::string::String",
            "Symbol path or last segment, e.g. demo_core::writer::Writer::flush or spawn_blocking.",
        ),
        package_filter(),
        switch("json", ShortFlag::Absent, "Emit JSON (one entry per line)."),
    ];
    let symbol = subcommand("Symbol", "Look up a symbol by (partial) path.", v);
    let v = vec![
        positional(
            "file",
            "std::path::PathBuf",
            "Path to the eval file (TOML, [[case]] entries).",
        ),
    ];
    let eval = subcommand(
        "Eval",
        "Run the retrieval evaluation set against the knowledge index.",
        v,
    );
    let v = vec![
        named(
            "out",
            ShortFlag::Absent,
            "std::path::PathBuf",
            false,
            false,
            Some("docs/config-reference.html"),
            "Output file.",
        ),
    ];
    let config_docs = subcommand("ConfigDocs", "Write this HTML configuration reference page.", v);
    let r = vec![packages, dump_docs, index, search, get, symbol, eval, config_docs];
    let ghost views = cli_subcommand_views();
    assert(subcommand_view(packages) =~~= views[0]);
    assert(subcommand_view(dump_docs) =~~= views[1]);
    assert(subcommand_view(index) =~~= views[2]);
    assert(subcommand_view(search) =~~= views[3]);
    assert(subcommand_view(get) =~~= views[4]);
    assert(subcommand_view(symbol) =~~= views[5]);
    assert(subcommand_view(eval) =~~= views[6]);
    assert(subcommand_view(config_docs) =~~= views[7]);
    assert(r@.map_values(|s: SubcommandShape| subcommand_view(s)) =~= views);
    r
}

/// The argument shape of `rust-knowledge`.
pub fn rust_knowledge_shape() -> (r: BinaryShape)
    ensures
        binary_view(r) == cli_binary_view(),
{
    let fields = vec![
        flattened("WorkspaceConfig", workspace_config_fields()),
        switch("verbose", ShortFlag::Given('v'), "Verbose logging."),
        flattened("FigueBuiltins", builtin_fields()),
        selector(),
    ];
    assert(fields_view(fields@) =~= cli_binary_view().fields);
    let subs = cli_subcommands();
    let r = BinaryShape {
        program: to_owned("rust-knowledge"),
        about: to_owned(
            "Search documentation of the resolved Cargo dependency universe of a workspace",
        ),
        fields,
        subcommands: Some(subs),
    };
    assert(binary_view(r) =~= cli_binary_view());
    r
}

/// The argument shape of `knowledge-mcp`.
pub fn knowledge_mcp_shape() -> (r: BinaryShape)
    ensures
        binary_view(r) == mcp_binary_view(),
{
    let fields = vec![
        flattened("WorkspaceConfig", workspace_config_fields()),
        flattened("FigueBuiltins", builtin_fields()),
    ];
    assert(fields_view(fields@) =~= mcp_binary_view().fields);
    let r = BinaryShape {
        program: to_owned("knowledge-mcp"),
        about: to_owned("MCP server exposing the rust-knowledge retrieval engine"),
        fields,
        subcommands: None,
    };
    assert(binary_view(r) =~= mcp_binary_view());
    r
}

/// The fields of the environment layer that have environment aliases
/// documented with `--index-dir`.
pub fn environment_fields() -> (r: Vec<ArgField>)
    ensures
        fields_view(r@) == environment_views(),
{
    let mut index_dir = named(
        "index_dir",
        ShortFlag::Absent,
        "std::path::PathBuf",
        true,
        false,
        None,
        "Knowledge index directory used when --index-dir is not given.",
    );
    add_alias(&mut index_dir, "RUST_KNOWLEDGE_INDEX_DIR");
    let r = vec![index_dir];
    assert(Seq::<Seq<char>>::empty().push("RUST_KNOWLEDGE_INDEX_DIR"@) =~= seq![
        "RUST_KNOWLEDGE_INDEX_DIR"@,
    ]);
    assert(fields_view(r@) =~= environment_views());
    r
}

/// Renders the full HTML configuration reference of both binaries: the
/// reference page, the same on every call.
pub fn render() -> (r: String)
    ensures
        r@ == reference_page(),
{
    let cli = rust_knowledge_shape();
    let mcp = knowledge_mcp_shape();
    let env = environment_fields();
    let page = render_page(&cli, &mcp, &env);
    proof {
        assert(binary_view(cli) == cli_binary_view() && binary_view(mcp) == mcp_binary_view()
            && fields_view(env@) == environment_views());
        let (c, m, e) = choose|c: BinaryShape, m: BinaryShape, e: Seq<ArgField>|
            binary_view(c) == cli_binary_view() && binary_view(m) == mcp_binary_view()
                && fields_view(e) == environment_views();
        law_page_depends_only_on_views(cli, c, mcp, m, env@, e);
    }
    page
}

proof fn lemma_replace_char_avoids(s: Seq<char>, from: char, to: Seq<char>, d: char)
    requires
        d == from || !s.contains(d),
        !to.contains(d),
    ensures
        !replace_char(s, from, to).contains(d),
    decreases s.len(),
{
    if s.len() > 0 {
        assert(d == from || !s.drop_last().contains(d)) by {
            if d != from && s.drop_last().contains(d) {
                let i = choose|i: int| 0 <= i < s.drop_last().len() && s.drop_last()[i] == d;
                assert(s[i] == d);
            }
        }
        lemma_replace_char_avoids(s.drop_last(), from, to, d);
        let head = replace_char(s.drop_last(), from, to);
        let tail = if s.last() == from {
            to
        } else {
            seq![s.last()]
        };
        assert(!tail.contains(d)) by {
            if s.last() != from && tail.contains(d) {
                assert(tail[0] == d);
                assert(s[s.len() - 1] == d);
            }
        }
        assert(replace_char(s, from, to) == head + tail);
        if (head + tail).contains(d) {
            let i = choose|i: int| 0 <= i < (head + tail).len() && (head + tail)[i] == d;
            if i < head.len() {
                assert(head[i] == d);
            } else {
                assert(tail[i - head.len()] == d);
            }
        }
    }
}

/// Escaped text carries no markup: no `<`, `>`, `"` or `'` is left in it.
pub proof fn law_escaped_text_has_no_markup(text: Seq<char>)
    ensures
        !esc_spec(text).contains('<'),
        !esc_spec(text).contains('>'),
        !esc_spec(text).contains('"'),
        !esc_spec(text).contains('\''),
{
    reveal_strlit("&amp;");
    reveal_strlit("&lt;");
    reveal_strlit("&gt;");
    reveal_strlit("&quot;");
    reveal_strlit("&#39;");
    let a = replace_char(text, '&', "&amp;"@);
    let b = replace_char(a, '<', "&lt;"@);
    let c = replace_char(b, '>', "&gt;"@);
    let d = replace_char(c, '"', "&quot;"@);
    let e = replace_char(d, '\'', "&#39;"@);
    assert(!"&lt;"@.contains('<')) by {
        assert("&lt;"@ =~= seq!['&', 'l', 't', ';']);
    }
    assert(!"&gt;"@.contains('<') && !"&gt;"@.contains('>')) by {
        assert("&gt;"@ =~= seq!['&', 'g', 't', ';']);
    }
    assert(!"&quot;"@.contains('<') && !"&quot;"@.contains('>') && !"&quot;"@.contains('"')) by {
        assert("&quot;"@ =~= seq!['&', 'q', 'u', 'o', 't', ';']);
    }
    assert(!"&#39;"@.contains('<') && !"&#39;"@.contains('>') && !"&#39;"@.contains('"')
        && !"&#39;"@.contains('\'')) by {
        assert("&#39;"@ =~= seq!['&', '#', '3', '9', ';']);
    }
    lemma_replace_char_avoids(a, '<', "&lt;"@, '<');
    lemma_replace_char_avoids(b, '>', "&gt;"@, '<');
    lemma_replace_char_avoids(b, '>', "&gt;"@, '>');
    lemma_replace_char_avoids(c, '"', "&quot;"@, '<');
    lemma_replace_char_avoids(c, '"', "&quot;"@, '>');
    lemma_replace_char_avoids(c, '"', "&quot;"@, '"');
    lemma_replace_char_avoids(d, '\'', "&#39;"@, '<');
    lemma_replace_char_avoids(d, '\'', "&#39;"@, '>');
    lemma_replace_char_avoids(d, '\'', "&#39;"@, '"');
    lemma_replace_char_avoids(d, '\'', "&#39;"@, '\'');
}

} // verus!
