//! Lexical operations on POSIX paths, held as strings.
use vstd::prelude::*;

use crate::text::{push_char, push_str, str_starts_with, starts_with};

verus! {

/// `p` is absolute (it starts with the root `/`).
pub open spec fn is_absolute(p: Seq<char>) -> bool {
    p.len() > 0 && p[0] == '/'
}

/// `Path::join` on POSIX: an absolute `child` replaces `base`; otherwise
/// `child` is appended, with a `/` between the two unless `base` is empty
/// or already ends in one.
pub open spec fn join(base: Seq<char>, child: Seq<char>) -> Seq<char> {
    if is_absolute(child) {
        child
    } else if base.len() == 0 {
        child
    } else if base.last() == '/' {
        base + child
    } else {
        base + seq!['/'] + child
    }
}

/// What `Path::parent` returns for a path (`None` for the root, for a
/// path that ends in the root, and for the empty path).
pub uninterp spec fn path_parent(p: Seq<char>) -> Option<Seq<char>>;

/// `base` joined with `child` (`Path::join`).
pub fn join_path(base: &str, child: &str) -> (r: String)
    ensures
        r@ == join(base@, child@),
{
    let absolute = str_starts_with(child, "/");
    proof {
        reveal_strlit("/");
        assert("/"@ =~= seq!['/']);
        if child@.len() > 0 {
            assert(child@.take(1) =~= seq![child@[0]]);
            if child@[0] == '/' {
                assert(child@.take(1) =~= "/"@);
            } else {
                assert(child@.take(1)[0] != "/"@[0]);
            }
        }
        assert(absolute == is_absolute(child@));
    }
    if absolute {
        return child.to_owned();
    }
    let mut out = base.to_owned();
    if base.is_empty() {
        return child.to_owned();
    }
    let ends_with_sep = ends_with_slash(base);
    if !ends_with_sep {
        push_char(&mut out, '/');
    }
    push_str(&mut out, child);
    out
}

fn ends_with_slash(s: &str) -> (r: bool)
    requires
        s@.len() > 0,
    ensures
        r == (s@.last() == '/'),
{
    let cs = crate::text::chars_of(s);
    cs[cs.len() - 1] == '/'
}

/// The parent directory of `p` (`Path::parent`): `p` without its final
/// component, or `None` when `p` is the root, ends in the root, or is empty.
/// The result is a proper prefix of `p`: `Path::parent` returns a sub-slice
/// of the path that leaves out its last component.
#[verifier::external_body]
pub(crate) fn parent(p: &str) -> (r: Option<String>)
    ensures
        r.is_some() == path_parent(p@).is_some(),
        r matches Some(q) ==> path_parent(p@) == Some(q@),
        r matches Some(q) ==> q@.len() < p@.len() && starts_with(p@, q@),
{
    match std::path::Path::new(p).parent() {
        Some(q) => Some(q.to_string_lossy().into_owned()),
        None => None,
    }
}

/// Whether a regular file exists at `p` (`Path::is_file`, which follows
/// symlinks). The answer depends on the file system at the time of the
/// call, so nothing is promised about it.
#[verifier::external_body]
pub(crate) fn is_file(p: &str) -> (r: bool) {
    std::path::Path::new(p).is_file()
}

} // verus!
