//! Stable, deterministic document identifiers.
//!
//! Document identity is derived from *semantic* identity (package id, source
//! kind, symbol or relative document path, section and chunk identity),
//! never from insertion order, so rebuilding the same corpus reproduces the
//! same ids.
use vstd::prelude::*;
use vstd::utf8::encode_utf8;

use crate::text::{chars_of, push_char, string_of};

verus! {

/// The SHA-256 digest of `data`.
pub uninterp spec fn sha256(data: Seq<u8>) -> Seq<u8>;

/// SHA-256 of a byte string (`sha2::Sha256::digest`), as its 32 bytes.
#[verifier::external_body]
pub(crate) fn sha256_digest(data: &[u8]) -> (r: Vec<u8>)
    ensures
        r@ == sha256(data@),
        r@.len() == 32,
{
    <sha2::Sha256 as sha2::Digest>::digest(data).to_vec()
}

/// Unit separator placed between identity parts.
pub const SEP: u8 = 0x1f;

/// The bytes hashed for an identity: the UTF-8 encodings of the parts,
/// separated by [`SEP`].
pub open spec fn identity_bytes(parts: Seq<Seq<char>>) -> Seq<u8>
    decreases parts.len(),
{
    if parts.len() == 0 {
        Seq::empty()
    } else if parts.len() == 1 {
        encode_utf8(parts[0])
    } else {
        identity_bytes(parts.drop_last()) + seq![SEP] + encode_utf8(parts.last())
    }
}

/// The lower-case hexadecimal digit for `n < 16`.
pub open spec fn hex_digit(n: int) -> char {
    if n < 10 {
        crate::text::digit_char(n as nat)
    } else if n == 10 {
        'a'
    } else if n == 11 {
        'b'
    } else if n == 12 {
        'c'
    } else if n == 13 {
        'd'
    } else if n == 14 {
        'e'
    } else {
        'f'
    }
}

/// Two lower-case hexadecimal digits per byte (`format!("{b:02x}")`).
pub open spec fn hex(bytes: Seq<u8>) -> Seq<char>
    decreases bytes.len(),
{
    if bytes.len() == 0 {
        Seq::empty()
    } else {
        hex(bytes.drop_last()) + seq![
            hex_digit(bytes.last() as int / 16),
            hex_digit(bytes.last() as int % 16),
        ]
    }
}

/// `c` is an ASCII hexadecimal digit (`u8::is_ascii_hexdigit`).
pub open spec fn is_hex_char(c: char) -> bool {
    ('0' <= c && c <= '9') || ('a' <= c && c <= 'f') || ('A' <= c && c <= 'F')
}

/// `c` is a lower-case hexadecimal digit.
pub open spec fn is_lower_hex_char(c: char) -> bool {
    ('0' <= c && c <= '9') || ('a' <= c && c <= 'f')
}

/// ASCII lower-casing of one character.
pub open spec fn lower_char(c: char) -> char {
    if 'A' <= c && c <= 'Z' {
        ((c as u32) + 32) as char
    } else {
        c
    }
}

/// The shape of every document id: 32 lower-case hexadecimal digits.
pub open spec fn is_id_shape(s: Seq<char>) -> bool {
    s.len() == 32 && forall|i: int| 0 <= i < s.len() ==> is_lower_hex_char(#[trigger] s[i])
}

/// The id derived from ordered identity parts: the first 16 bytes of the
/// SHA-256 digest of [`identity_bytes`], in hexadecimal.
pub open spec fn id_of_parts(parts: Seq<Seq<char>>) -> Seq<char> {
    hex(sha256(identity_bytes(parts)).take(16))
}

/// What `from_raw` accepts and yields: 32 ASCII hex digits, lower-cased.
pub open spec fn from_raw_spec(raw: Seq<char>) -> Option<Seq<char>> {
    if raw.len() == 32 && forall|i: int| 0 <= i < raw.len() ==> is_hex_char(#[trigger] raw[i]) {
        Some(raw.map_values(|c: char| lower_char(c)))
    } else {
        None
    }
}

/// A stable document identifier: 32 lower-case hexadecimal digits.
#[derive(PartialEq, Eq, Hash, PartialOrd, Ord, Debug)]
pub struct DocumentId(String);

impl Clone for DocumentId {
    fn clone(&self) -> (r: Self)
        ensures
            r@ == self@,
    {
        proof {
            use_type_invariant(self);
        }
        DocumentId(self.0.clone())
    }
}

impl View for DocumentId {
    type V = Seq<char>;

    closed spec fn view(&self) -> Seq<char> {
        self.0@
    }
}

proof fn lemma_hex_len(bytes: Seq<u8>)
    ensures
        hex(bytes).len() == 2 * bytes.len(),
        forall|i: int| 0 <= i < hex(bytes).len() ==> is_lower_hex_char(#[trigger] hex(bytes)[i]),
    decreases bytes.len(),
{
    if bytes.len() > 0 {
        lemma_hex_len(bytes.drop_last());
        let prev = hex(bytes.drop_last());
        let last = seq![
            hex_digit(bytes.last() as int / 16),
            hex_digit(bytes.last() as int % 16),
        ];
        assert forall|i: int| 0 <= i < hex(bytes).len() implies is_lower_hex_char(
            #[trigger] hex(bytes)[i],
        ) by {
            if i < prev.len() {
                assert(hex(bytes)[i] == prev[i]);
            } else {
                assert(hex(bytes)[i] == last[i - prev.len()]);
            }
        }
    }
}

/// Every id derived from identity parts has the id shape.
proof fn lemma_id_of_parts_shape(parts: Seq<Seq<char>>)
    requires
        sha256(identity_bytes(parts)).len() == 32,
    ensures
        is_id_shape(id_of_parts(parts)),
{
    lemma_hex_len(sha256(identity_bytes(parts)).take(16));
}

fn hex_digit_exec(n: u8) -> (c: char)
    requires
        n < 16,
    ensures
        c == hex_digit(n as int),
{
    if n == 0 {
        '0'
    } else if n == 1 {
        '1'
    } else if n == 2 {
        '2'
    } else if n == 3 {
        '3'
    } else if n == 4 {
        '4'
    } else if n == 5 {
        '5'
    } else if n == 6 {
        '6'
    } else if n == 7 {
        '7'
    } else if n == 8 {
        '8'
    } else if n == 9 {
        '9'
    } else if n == 10 {
        'a'
    } else if n == 11 {
        'b'
    } else if n == 12 {
        'c'
    } else if n == 13 {
        'd'
    } else if n == 14 {
        'e'
    } else {
        'f'
    }
}

/// The first `n` bytes of `bytes` in lower-case hexadecimal.
pub fn hex_prefix(bytes: &Vec<u8>, n: usize) -> (r: String)
    requires
        n <= bytes@.len(),
    ensures
        r@ == hex(bytes@.take(n as int)),
{
    let mut out = String::new();
    let mut i: usize = 0;
    while i < n
        invariant
            i <= n <= bytes@.len(),
            out@ == hex(bytes@.take(i as int)),
        decreases n - i,
    {
        let b = bytes[i];
        push_char(&mut out, hex_digit_exec(b / 16));
        push_char(&mut out, hex_digit_exec(b % 16));
        proof {
            let t = bytes@.take(i + 1);
            assert(t.drop_last() =~= bytes@.take(i as int));
            assert(t.last() == b);
        }
        i = i + 1;
    }
    out
}

/// Appends the bytes of `s` (its UTF-8 encoding) to `out`.
pub fn extend_bytes(out: &mut Vec<u8>, bytes: &[u8])
    ensures
        final(out)@ == old(out)@ + bytes@,
{
    let mut i: usize = 0;
    while i < bytes.len()
        invariant
            i <= bytes@.len(),
            out@ == old(out)@ + bytes@.take(i as int),
        decreases bytes@.len() - i,
    {
        out.push(bytes[i]);
        assert(bytes@.take(i + 1) =~= bytes@.take(i as int).push(bytes@[i as int]));
        i = i + 1;
    }
    assert(bytes@.take(bytes@.len() as int) =~= bytes@);
}

impl DocumentId {
    #[verifier::type_invariant]
    spec fn well_formed(&self) -> bool {
        is_id_shape(self.0@)
    }

    /// Derives an id from ordered identity parts: the parts' UTF-8 bytes,
    /// separated by the unit separator, hashed with SHA-256; the first 16
    /// bytes of the digest in lower-case hexadecimal.
    pub fn from_identity(parts: &[&str]) -> (r: DocumentId)
        ensures
            r@ == id_of_parts(parts@.map_values(|p: &str| p@)),
    {
        let ghost views = parts@.map_values(|p: &str| p@);
        let mut bytes: Vec<u8> = Vec::new();
        let mut i: usize = 0;
        while i < parts.len()
            invariant
                i <= parts@.len(),
                views == parts@.map_values(|p: &str| p@),
                bytes@ == identity_bytes(views.take(i as int)),
            decreases parts@.len() - i,
        {
            if i > 0 {
                bytes.push(SEP);
            }
            extend_bytes(&mut bytes, parts[i].as_bytes());
            proof {
                let t = views.take(i + 1);
                assert(t.drop_last() =~= views.take(i as int));
                assert(t.last() == parts@[i as int]@);
                if i == 0 {
                    assert(t =~= seq![parts@[0]@]);
                }
            }
            i = i + 1;
        }
        assert(views.take(parts@.len() as int) =~= views);
        let digest = sha256_digest(bytes.as_slice());
        let hex_id = hex_prefix(&digest, 16);
        proof {
            lemma_id_of_parts_shape(views);
        }
        DocumentId(hex_id)
    }

    /// The id as text.
    pub fn as_str(&self) -> (r: &str)
        ensures
            r@ == self@,
            is_id_shape(r@),
    {
        proof {
            use_type_invariant(self);
        }
        self.0.as_str()
    }

    /// Rebuilds an id from its hex form (as stored in an index). Only the
    /// shape this crate produces is accepted: 32 ASCII hexadecimal digits,
    /// which are lower-cased.
    pub fn from_raw(raw: String) -> (r: Option<DocumentId>)
        ensures
            match r {
                Some(id) => from_raw_spec(raw@) == Some(id@),
                None => from_raw_spec(raw@) is None,
            },
    {
        let cs = chars_of(raw.as_str());
        if cs.len() != 32 {
            return None;
        }
        let mut lowered: Vec<char> = Vec::new();
        let mut i: usize = 0;
        while i < cs.len()
            invariant
                cs@ == raw@,
                cs@.len() == 32,
                i <= 32,
                lowered@.len() == i,
                forall|j: int| 0 <= j < i ==> is_hex_char(#[trigger] cs@[j]),
                forall|j: int| 0 <= j < i ==> #[trigger] lowered@[j] == lower_char(cs@[j]),
            decreases 32 - i,
        {
            let c = cs[i];
            let hexdigit = ('0' <= c && c <= '9') || ('a' <= c && c <= 'f') || ('A' <= c && c
                <= 'F');
            if !hexdigit {
                return None;
            }
            let l = if 'A' <= c && c <= 'F' {
                lower_hex_letter(c)
            } else {
                c
            };
            lowered.push(l);
            i = i + 1;
        }
        let ghost low = raw@.map_values(|c: char| lower_char(c));
        assert(lowered@ =~= low);
        assert forall|j: int| 0 <= j < low.len() implies is_lower_hex_char(#[trigger] low[j]) by {
            assert(is_hex_char(cs@[j]));
        }
        Some(DocumentId(string_of(&lowered, 0, 32)))
    }
}

/// ASCII lower-casing of an upper-case hexadecimal letter.
fn lower_hex_letter(c: char) -> (r: char)
    requires
        'A' <= c <= 'F',
    ensures
        r == lower_char(c),
{
    if c == 'A' {
        'a'
    } else if c == 'B' {
        'b'
    } else if c == 'C' {
        'c'
    } else if c == 'D' {
        'd'
    } else if c == 'E' {
        'e'
    } else {
        'f'
    }
}

/// Ids read back from text are the ids this crate produces: `from_raw`
/// accepts every value of the id shape (which `as_str` guarantees of every
/// `DocumentId`) and gives it back unchanged.
pub proof fn law_from_raw_accepts_ids(id: Seq<char>)
    requires
        is_id_shape(id),
    ensures
        from_raw_spec(id) == Some(id),
{
    assert forall|i: int| 0 <= i < id.len() implies is_hex_char(#[trigger] id[i]) by {
        assert(is_lower_hex_char(id[i]));
    }
    assert(id.map_values(|c: char| lower_char(c)) =~= id);
}

} // verus!
