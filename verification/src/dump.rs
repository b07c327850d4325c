//! What the corpus dump shows: the documents of one package, and each
//! document's text cut to a preview.
use vstd::prelude::*;

use crate::model::KnowledgeDocument;
use crate::text::{
    char_is_ws, chars_of, lemma_trail_ws_all, lemma_trail_ws_step, push_str, str_eq, string_of,
    trail_ws,
};

verus! {

/// The number of UTF-8 bytes after which a dumped text is cut.
pub const PREVIEW_BYTES: usize = 1200;

/// The number of bytes of `c` in UTF-8.
pub open spec fn utf8_width(c: char) -> nat {
    if (c as u32) < 0x80 {
        1
    } else if (c as u32) < 0x800 {
        2
    } else if (c as u32) < 0x10000 {
        3
    } else {
        4
    }
}

/// The number of bytes of `cs` in UTF-8 (`str::len`).
pub open spec fn byte_len(cs: Seq<char>) -> nat
    decreases cs.len(),
{
    if cs.len() == 0 {
        0
    } else {
        utf8_width(cs[0]) + byte_len(cs.drop_first())
    }
}

/// The number of leading characters of `cs` whose UTF-8 encoding fits in
/// `limit` bytes: the characters before `str::floor_char_boundary(limit)`.
pub open spec fn fitting_chars(cs: Seq<char>, limit: int) -> nat
    decreases cs.len(),
{
    if cs.len() == 0 || utf8_width(cs[0]) > limit {
        0
    } else {
        1 + fitting_chars(cs.drop_first(), limit - utf8_width(cs[0]))
    }
}

/// `s` without trailing whitespace (`str::trim_end`).
pub open spec fn trim_end(s: Seq<char>) -> Seq<char> {
    s.take(s.len() - trail_ws(s))
}

/// The preview of a text: the text itself when its UTF-8 encoding is at
/// most [`PREVIEW_BYTES`] long, else the characters that fit in that many
/// bytes, without trailing whitespace, followed by `...`.
pub open spec fn preview_spec(text: Seq<char>) -> Seq<char> {
    if byte_len(text) > PREVIEW_BYTES {
        trim_end(text.take(fitting_chars(text, PREVIEW_BYTES as int) as int)) + "..."@
    } else {
        text
    }
}

fn utf8_width_exec(c: char) -> (r: usize)
    ensures
        r == utf8_width(c),
{
    let v = c as u32;
    if v < 0x80 {
        1
    } else if v < 0x800 {
        2
    } else if v < 0x10000 {
        3
    } else {
        4
    }
}

proof fn lemma_skip_step(cs: Seq<char>, i: int)
    requires
        0 <= i < cs.len(),
    ensures
        cs.skip(i).len() > 0,
        cs.skip(i)[0] == cs[i],
        cs.skip(i).drop_first() == cs.skip(i + 1),
{
    assert(cs.skip(i).drop_first() =~= cs.skip(i + 1));
}

/// The text a dump shows of a document ([`preview_spec`]).
pub fn preview(text: &str) -> (r: String)
    ensures
        r@ == preview_spec(text@),
{
    let cs = chars_of(text);
    let n = cs.len();
    let mut i: usize = 0;
    let mut total: usize = 0;
    assert(cs@.skip(0) =~= cs@);
    while i < n && total <= PREVIEW_BYTES
        invariant
            n == cs@.len(),
            cs@ == text@,
            i <= n,
            total <= PREVIEW_BYTES + 4,
            byte_len(cs@) == total + byte_len(cs@.skip(i as int)),
        decreases n - i,
    {
        proof {
            lemma_skip_step(cs@, i as int);
        }
        total = total + utf8_width_exec(cs[i]);
        i = i + 1;
    }
    if total <= PREVIEW_BYTES {
        assert(cs@.skip(n as int) =~= Seq::<char>::empty());
        return text.to_owned();
    }
    let mut k: usize = 0;
    let mut used: usize = 0;
    while k < n && used + utf8_width_exec(cs[k]) <= PREVIEW_BYTES
        invariant
            n == cs@.len(),
            k <= n,
            used <= PREVIEW_BYTES,
            fitting_chars(cs@, PREVIEW_BYTES as int) == k + fitting_chars(
                cs@.skip(k as int),
                PREVIEW_BYTES - used,
            ),
        decreases n - k,
    {
        proof {
            lemma_skip_step(cs@, k as int);
        }
        used = used + utf8_width_exec(cs[k]);
        k = k + 1;
    }
    proof {
        if k < n {
            lemma_skip_step(cs@, k as int);
        } else {
            assert(cs@.skip(k as int) =~= Seq::<char>::empty());
        }
    }
    let ghost t = cs@.take(k as int);
    let mut end: usize = k;
    while end > 0 && char_is_ws(cs[end - 1])
        invariant
            k <= n == cs@.len(),
            end <= k,
            t == cs@.take(k as int),
            forall|j: int| end <= j < k ==> is_ws_at(cs@, j),
        decreases end,
    {
        end = end - 1;
    }
    proof {
        let m = (k - end) as int;
        assert forall|j: int| t.len() - m <= j < t.len() implies crate::text::is_ws(
            #[trigger] t[j],
        ) by {
            assert(is_ws_at(cs@, j));
        }
        if end > 0 {
            assert(t[t.len() - 1 - m] == cs@[end - 1]);
            lemma_trail_ws_step(t, m);
        } else {
            lemma_trail_ws_all(t);
        }
        assert(trim_end(t) =~= cs@.subrange(0, end as int));
    }
    let mut out = string_of(&cs, 0, end);
    push_str(&mut out, "...");
    out
}

/// The character at `j` of `cs` is whitespace.
spec fn is_ws_at(cs: Seq<char>, j: int) -> bool {
    crate::text::is_ws(cs[j])
}

/// The documents of `docs` whose package has id `package_id`, in order.
pub open spec fn documents_of_spec(docs: Seq<KnowledgeDocument>, package_id: Seq<char>) -> Seq<
    KnowledgeDocument,
> {
    docs.filter(|d: KnowledgeDocument| d.package.package_id@ == package_id)
}

/// Keeps the documents of the package with id `package_id`.
pub fn documents_of(docs: Vec<KnowledgeDocument>, package_id: &str) -> (r: Vec<KnowledgeDocument>)
    ensures
        r@ == documents_of_spec(docs@, package_id@),
{
    let ghost all = docs@;
    let mut rest = docs;
    let mut out: Vec<KnowledgeDocument> = Vec::new();
    let n = rest.len();
    let mut i: usize = 0;
    while i < n
        invariant
            n == all.len(),
            i <= n,
            rest@ == all.skip(i as int),
            out@ == documents_of_spec(all.take(i as int), package_id@),
        decreases n - i,
    {
        reveal(Seq::filter);
        let d = rest.remove(0);
        assert(d == all[i as int]);
        assert(rest@ =~= all.skip(i + 1));
        assert(all.take(i + 1).drop_last() =~= all.take(i as int));
        assert(all.take(i + 1).last() == d);
        if str_eq(d.package.package_id.as_str(), package_id) {
            out.push(d);
        }
        i = i + 1;
    }
    assert(all.take(n as int) =~= all);
    out
}

} // verus!
