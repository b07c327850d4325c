//! Workspace resolution from a starting directory.
//!
//! A client that registers the MCP server once, globally, cannot pass a
//! per-repo manifest path; the server instead identifies the workspace from
//! its working directory: the nearest ancestor directory containing a
//! `Cargo.toml`. The walk is lexical (paths are used exactly as given, never
//! canonicalized), so identity is stable for symlinked checkouts.
use vstd::prelude::*;

use crate::model::views;
use crate::paths::{is_file, join, join_path, parent, path_parent};
use crate::text::opt_string_view;

verus! {

/// The manifest file that marks a directory as part of a cargo workspace.
pub const MANIFEST_FILE: &'static str = "Cargo.toml";

/// The lexical ancestors of `p`, nearest first: `p` itself, then each
/// directory's parent, until a directory has none.
pub open spec fn ancestors(p: Seq<char>) -> Seq<Seq<char>>
    decreases p.len(),
{
    match path_parent(p) {
        Some(q) => if q.len() < p.len() {
            seq![p] + ancestors(q)
        } else {
            seq![p]
        },
        None => seq![p],
    }
}

/// The manifest paths that the walk from `p` checks, nearest first: each
/// ancestor joined with `Cargo.toml`.
pub open spec fn manifest_candidates_spec(p: Seq<char>) -> Seq<Seq<char>> {
    ancestors(p).map_values(|d: Seq<char>| join(d, MANIFEST_FILE@))
}

/// `i` is the first position at which `answers` holds `true`.
pub open spec fn is_first_true(answers: Seq<bool>, i: int) -> bool {
    &&& 0 <= i < answers.len()
    &&& answers[i]
    &&& forall|j: int| 0 <= j < i ==> !answers[j]
}

/// The first candidate whose check answered `true`, or `None` when no
/// check did.
pub open spec fn first_existing_spec(candidates: Seq<Seq<char>>, answers: Seq<bool>) -> Option<
    Seq<char>,
> {
    if exists|i: int| is_first_true(answers, i) {
        Some(candidates[choose|i: int| is_first_true(answers, i)])
    } else {
        None
    }
}

proof fn lemma_first_true_unique(answers: Seq<bool>, i: int, k: int)
    requires
        is_first_true(answers, i),
        is_first_true(answers, k),
    ensures
        i == k,
{
    if i < k {
        assert(!answers[i]);
    } else if k < i {
        assert(!answers[k]);
    }
}

/// The manifest paths that the walk from `start_dir` checks, nearest first.
pub fn manifest_candidates(start_dir: &str) -> (r: Vec<String>)
    ensures
        views(r@) == manifest_candidates_spec(start_dir@),
{
    let mut out: Vec<String> = Vec::new();
    let mut dir = start_dir.to_owned();
    loop
        invariant
            views(out@) + manifest_candidates_spec(dir@) == manifest_candidates_spec(start_dir@),
        decreases dir@.len(),
    {
        let manifest = join_path(dir.as_str(), MANIFEST_FILE);
        let ghost before = out@;
        out.push(manifest);
        proof {
            assert(views(out@) =~= views(before) + seq![manifest@]);
        }
        match parent(dir.as_str()) {
            Some(up) => {
                proof {
                    assert(ancestors(dir@) == seq![dir@] + ancestors(up@));
                    assert(manifest_candidates_spec(dir@) =~= seq![manifest@]
                        + manifest_candidates_spec(up@));
                    assert(views(out@) + manifest_candidates_spec(up@) =~= views(before)
                        + manifest_candidates_spec(dir@));
                }
                dir = up;
            },
            None => {
                proof {
                    assert(ancestors(dir@) == seq![dir@]);
                    assert(manifest_candidates_spec(dir@) =~= seq![manifest@]);
                    assert(views(out@) =~= views(before) + manifest_candidates_spec(dir@));
                }
                return out;
            },
        }
    }
}

/// The first candidate whose file check answered `true` (`answers[i]` is
/// the answer for `candidates[i]`), or `None` when none did.
pub fn first_existing(candidates: &Vec<String>, answers: &Vec<bool>) -> (r: Option<String>)
    requires
        answers@.len() <= candidates@.len(),
    ensures
        opt_string_view(r) == first_existing_spec(views(candidates@), answers@),
        r is None <==> forall|i: int| 0 <= i < answers@.len() ==> !answers@[i],
{
    let mut i: usize = 0;
    while i < answers.len()
        invariant
            i <= answers@.len() <= candidates@.len(),
            forall|j: int| 0 <= j < i ==> !answers@[j],
        decreases answers@.len() - i,
    {
        if answers[i] {
            proof {
                let k = i as int;
                assert(is_first_true(answers@, k));
                let c = choose|c: int| is_first_true(answers@, c);
                lemma_first_true_unique(answers@, k, c);
            }
            return Some(candidates[i].clone());
        }
        i = i + 1;
    }
    proof {
        assert(!exists|k: int| is_first_true(answers@, k));
    }
    None
}

/// Finds the nearest `Cargo.toml` at or above `start_dir`.
///
/// Walks up over `start_dir` and its ancestors as given (no
/// canonicalization; the file check follows symlinks), checks the
/// candidates of [`manifest_candidates`] nearest first, and returns the
/// first one that is a file, as a path (`<dir>/Cargo.toml`): the start
/// directory's own manifest when it exists, and `None` only when every
/// check failed. Which files exist is up to the file system, so the
/// contract speaks of the answers the checks gave, whatever they were.
pub fn nearest_manifest(start_dir: &str) -> (r: Option<String>)
    ensures
        exists|answers: Seq<bool>|
            {
                &&& answers.len() == manifest_candidates_spec(start_dir@).len()
                &&& opt_string_view(r) == first_existing_spec(
                    manifest_candidates_spec(start_dir@),
                    answers,
                )
            },
{
    let candidates = manifest_candidates(start_dir);
    let ghost cands = views(candidates@);
    let mut answers: Vec<bool> = Vec::new();
    let n: usize = candidates.len();
    let mut i: usize = 0;
    while i < n
        invariant_except_break
            answers@.len() == i,
            forall|j: int| 0 <= j < i ==> !answers@[j],
        invariant
            n == candidates@.len(),
            i <= n,
        ensures
            answers@.len() <= n,
            forall|j: int| 0 <= j < answers@.len() - 1 ==> !answers@[j],
            answers@.len() < n ==> answers@.len() > 0 && answers@.last(),
        decreases n - i,
    {
        let found = is_file(candidates[i].as_str());
        answers.push(found);
        if found {
            break;
        }
        i = i + 1;
    }
    let r = first_existing(&candidates, &answers);
    proof {
        let checked = answers@;
        let full = checked + Seq::new((n - checked.len()) as nat, |k: int| false);
        assert(full.len() == cands.len());
        if exists|k: int| is_first_true(checked, k) {
            let k = choose|k: int| is_first_true(checked, k);
            assert(is_first_true(full, k));
            let c = choose|c: int| is_first_true(full, c);
            lemma_first_true_unique(full, k, c);
        } else {
            assert(checked.len() == n) by {
                if checked.len() < n {
                    assert(is_first_true(checked, checked.len() - 1));
                }
            }
            assert(full =~= checked);
        }
        assert(opt_string_view(r) == first_existing_spec(cands, full));
    }
    r
}

} // verus!
