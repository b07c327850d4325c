//! Retrieval evaluation: a committed set of representative queries with
//! expected results and rank thresholds, run against a real index, so that
//! retrieval quality is a testable property.
use vstd::prelude::*;

use crate::cargo::first_at;
use crate::model::{context_of, context_spec, views};
use crate::query::{RankedHit, SearchQuery};
use crate::text::{chars_of, opt_string_view, push_str, starts_with, str_eq, str_starts_with, string_of};

verus! {

/// One evaluation case.
#[derive(Clone, Debug)]
pub struct EvalCase {
    /// The query text, as a coding agent would phrase it.
    pub text: String,
    /// Category: known_symbol, api_discovery, conceptual, cross_package,
    /// version_sensitive.
    pub category: String,
    /// At least one of these contexts (symbol path or joined section path)
    /// must prefix the context of a top result.
    pub expect_any: Vec<String>,
    /// Optional: restrict acceptable hits to this package ("name" or
    /// "name@version").
    pub expect_package: Option<String>,
    /// The first useful hit must rank at most this (1-based).
    pub max_rank: usize,
}

/// The rank threshold a case gets when its file gives none.
pub fn default_max_rank() -> (r: usize)
    ensures
        r == 3,
{
    3
}

/// Result of one eval case.
#[derive(Clone, Debug)]
pub struct EvalOutcome {
    pub case: EvalCase,
    /// 1-based rank of the first useful hit, or `None`.
    pub rank: Option<usize>,
    /// Contexts of the top results, for diagnosis.
    pub top: Vec<String>,
    pub limit: usize,
}

/// An outcome passes when its first useful hit ranks within the threshold.
pub open spec fn passed_spec(o: EvalOutcome) -> bool {
    o.rank matches Some(rank) && rank <= o.case.max_rank
}

impl EvalOutcome {
    /// Whether the first useful hit ranks within the case's threshold.
    pub fn passed(&self) -> (r: bool)
        ensures
            r == passed_spec(*self),
    {
        match self.rank {
            Some(rank) => rank <= self.case.max_rank,
            None => false,
        }
    }
}

/// Whether a hit's package satisfies an expected package spec: `name@version`
/// (split at the first `@`) must match both, a bare name the name only.
pub open spec fn package_ok(expected: Seq<char>, name: Seq<char>, version: Seq<char>) -> bool {
    match first_at(expected) {
        Some(k) => name == expected.subrange(0, k) && version == expected.subrange(
            k + 1,
            expected.len() as int,
        ),
        None => name == expected,
    }
}

/// The display context of a ranked hit.
pub open spec fn hit_context(h: RankedHit) -> Seq<char> {
    context_spec(opt_string_view(h.symbol_path), views(h.section_path@), h.title@)
}

/// A hit is useful for a case when its package is acceptable and one of the
/// expected contexts prefixes its context.
pub open spec fn hit_matches_spec(h: RankedHit, c: EvalCase) -> bool {
    &&& (c.expect_package matches Some(e) ==> package_ok(e@, h.package_name@, h.package_version@))
    &&& exists|i: int|
        0 <= i < c.expect_any@.len() && starts_with(hit_context(h), #[trigger] c.expect_any@[i]@)
}

/// The diagnostic line for a hit: its context, annotated with the package
/// name when the case expects a package it satisfies, or with
/// `name@version` when it does not.
pub open spec fn top_entry_spec(h: RankedHit, c: EvalCase) -> Seq<char> {
    match c.expect_package {
        Some(e) => if package_ok(e@, h.package_name@, h.package_version@) || (first_at(e@) is None
            && h.package_name@ + "@"@ + h.package_version@ == e@) {
            hit_context(h) + " ["@ + h.package_name@ + "]"@
        } else {
            hit_context(h) + " ["@ + h.package_name@ + "@"@ + h.package_version@ + "]"@
        },
        None => hit_context(h),
    }
}

/// The index of the first useful hit.
pub open spec fn first_useful(hits: Seq<RankedHit>, c: EvalCase) -> Option<int>
    decreases hits.len(),
{
    if hits.len() == 0 {
        None
    } else {
        match first_useful(hits.drop_last(), c) {
            Some(i) => Some(i),
            None => if hit_matches_spec(hits.last(), c) {
                Some(hits.len() - 1)
            } else {
                None
            },
        }
    }
}

/// The result limit of a case's query: its threshold, clamped to 5..=10.
pub open spec fn limit_for(max_rank: usize) -> usize {
    if max_rank < 5 {
        5
    } else if max_rank > 10 {
        10
    } else {
        max_rank
    }
}

/// Whether a hit's package satisfies `expected`.
fn package_matches(expected: &str, name: &str, version: &str) -> (r: bool)
    ensures
        r == package_ok(expected@, name@, version@),
{
    let cs = chars_of(expected);
    let mut k: usize = 0;
    while k < cs.len() && cs[k] != '@'
        invariant
            cs@ == expected@,
            k <= cs@.len(),
            first_at(cs@.take(k as int)) is None,
        decreases cs@.len() - k,
    {
        assert(cs@.take(k + 1).drop_last() =~= cs@.take(k as int));
        k = k + 1;
    }
    proof {
        crate::cargo::lemma_first_at_prefix(cs@, k as int);
    }
    if k < cs.len() {
        let n = string_of(&cs, 0, k);
        let v = string_of(&cs, k + 1, cs.len());
        str_eq(name, n.as_str()) && str_eq(version, v.as_str())
    } else {
        str_eq(name, expected)
    }
}

/// Whether a hit is useful for a case.
pub fn hit_matches(hit: &RankedHit, case: &EvalCase) -> (r: bool)
    ensures
        r == hit_matches_spec(*hit, *case),
{
    let context = context_of(&hit.symbol_path, &hit.section_path, &hit.title);
    if let Some(expected) = &case.expect_package {
        if !package_matches(expected.as_str(), hit.package_name.as_str(), hit.package_version.as_str()) {
            return false;
        }
    }
    let mut i: usize = 0;
    while i < case.expect_any.len()
        invariant
            i <= case.expect_any@.len(),
            context@ == hit_context(*hit),
            case.expect_package matches Some(e) ==> package_ok(
                e@,
                hit.package_name@,
                hit.package_version@,
            ),
            forall|j: int| 0 <= j < i ==> !starts_with(context@, #[trigger] case.expect_any@[j]@),
        decreases case.expect_any@.len() - i,
    {
        let e = case.expect_any[i].as_str();
        if str_eq(context.as_str(), e) || str_starts_with(context.as_str(), e) {
            proof {
                if context@ == case.expect_any@[i as int]@ {
                    assert(context@.take(context@.len() as int) =~= context@);
                }
                assert(starts_with(context@, case.expect_any@[i as int]@));
            }
            return true;
        }
        i = i + 1;
    }
    false
}

/// The diagnostic line for a hit.
pub fn top_entry(hit: &RankedHit, case: &EvalCase) -> (r: String)
    ensures
        r@ == top_entry_spec(*hit, *case),
{
    let mut context = context_of(&hit.symbol_path, &hit.section_path, &hit.title);
    match &case.expect_package {
        Some(expected) => {
            let mut key = hit.package_name.clone();
            push_str(&mut key, "@");
            push_str(&mut key, hit.package_version.as_str());
            let ok = package_matches(
                expected.as_str(),
                hit.package_name.as_str(),
                hit.package_version.as_str(),
            ) || (!has_at(expected.as_str()) && str_eq(key.as_str(), expected.as_str()));
            push_str(&mut context, " [");
            push_str(&mut context, hit.package_name.as_str());
            if !ok {
                push_str(&mut context, "@");
                push_str(&mut context, hit.package_version.as_str());
            }
            push_str(&mut context, "]");
            context
        },
        None => context,
    }
}

/// Whether `s` contains an `@`.
fn has_at(s: &str) -> (r: bool)
    ensures
        r == (first_at(s@) is Some),
{
    let cs = chars_of(s);
    let mut k: usize = 0;
    while k < cs.len() && cs[k] != '@'
        invariant
            cs@ == s@,
            k <= cs@.len(),
            first_at(cs@.take(k as int)) is None,
        decreases cs@.len() - k,
    {
        assert(cs@.take(k + 1).drop_last() =~= cs@.take(k as int));
        k = k + 1;
    }
    proof {
        crate::cargo::lemma_first_at_prefix(cs@, k as int);
    }
    k < cs.len()
}

/// The outcome of one case given the hits its query returned: the
/// diagnostic lines of the hits, and the 1-based rank of the first useful
/// one.
pub fn evaluate_case(case: EvalCase, hits: &Vec<RankedHit>, limit: usize) -> (r: EvalOutcome)
    ensures
        r.case == case,
        r.limit == limit,
        r.top@.len() == hits@.len(),
        forall|i: int| 0 <= i < hits@.len() ==> (#[trigger] r.top@[i])@ == top_entry_spec(hits@[i], case),
        r.rank == match first_useful(hits@, case) {
            Some(i) => Some((i + 1) as usize),
            None => None::<usize>,
        },
{
    let mut top: Vec<String> = Vec::new();
    let mut rank: Option<usize> = None;
    let mut i: usize = 0;
    while i < hits.len()
        invariant
            i <= hits@.len(),
            top@.len() == i,
            forall|j: int| 0 <= j < i ==> (#[trigger] top@[j])@ == top_entry_spec(hits@[j], case),
            rank == match first_useful(hits@.take(i as int), case) {
                Some(j) => Some((j + 1) as usize),
                None => None::<usize>,
            },
        decreases hits@.len() - i,
    {
        assert(hits@.take(i + 1).drop_last() =~= hits@.take(i as int));
        top.push(top_entry(&hits[i], &case));
        if rank.is_none() && hit_matches(&hits[i], &case) {
            rank = Some(i + 1);
        }
        i = i + 1;
    }
    assert(hits@.take(i as int) =~= hits@);
    EvalOutcome { case, rank, top, limit }
}

/// Whether `q` is the query that case `c` runs: the case's text, no
/// package, source-kind or item-kind filter, and the clamped limit.
pub open spec fn is_eval_query(q: SearchQuery, c: EvalCase) -> bool {
    &&& q.text@ == c.text@
    &&& q.packages@.len() == 0
    &&& q.source_kinds@.len() == 0
    &&& q.item_kinds@.len() == 0
    &&& q.limit == limit_for(c.max_rank)
}

/// The query a case runs: its text, no filters, and its clamped limit.
pub fn eval_query(case: &EvalCase) -> (r: SearchQuery)
    ensures
        is_eval_query(r, *case),
{
    let limit = if case.max_rank < 5 {
        5
    } else if case.max_rank > 10 {
        10
    } else {
        case.max_rank
    };
    SearchQuery {
        text: case.text.clone(),
        packages: Vec::new(),
        source_kinds: Vec::new(),
        item_kinds: Vec::new(),
        limit,
    }
}

/// Runs the cases, in order, against a search function (a failed search
/// counts as no hits) and returns the per-case outcomes. Each case's
/// search is handed exactly the query of [`eval_query`].
pub fn run_eval<S>(search: &S, cases: Vec<EvalCase>) -> (r: Vec<EvalOutcome>) where
    S: Fn(&SearchQuery) -> Vec<RankedHit>,

    requires
        forall|q: &SearchQuery| call_requires(*search, (q,)),
    ensures
        r@.len() == cases@.len(),
        forall|i: int|
            0 <= i < cases@.len() ==> {
                &&& (#[trigger] r@[i]).case == cases@[i]
                &&& r@[i].limit == limit_for(cases@[i].max_rank)
                &&& exists|q: SearchQuery, hits: Vec<RankedHit>|
                    {
                        &&& is_eval_query(q, cases@[i])
                        &&& call_ensures(*search, (&q,), hits)
                        &&& r@[i].top@.len() == hits@.len()
                        &&& forall|j: int|
                            0 <= j < hits@.len() ==> (#[trigger] r@[i].top@[j])@ == top_entry_spec(
                                hits@[j],
                                cases@[i],
                            )
                        &&& r@[i].rank == match first_useful(hits@, cases@[i]) {
                            Some(j) => Some((j + 1) as usize),
                            None => None::<usize>,
                        }
                    }
            },
{
    let ghost all = cases@;
    let mut rest = cases;
    let mut outcomes: Vec<EvalOutcome> = Vec::new();
    let n = rest.len();
    let mut i: usize = 0;
    while i < n
        invariant
            i <= n,
            n == all.len(),
            rest@ == all.skip(i as int),
            outcomes@.len() == i,
            forall|q: &SearchQuery| call_requires(*search, (q,)),
            forall|k: int|
                0 <= k < i ==> {
                    &&& (#[trigger] outcomes@[k]).case == all[k]
                    &&& outcomes@[k].limit == limit_for(all[k].max_rank)
                    &&& exists|q: SearchQuery, hits: Vec<RankedHit>|
                        {
                            &&& is_eval_query(q, all[k])
                            &&& call_ensures(*search, (&q,), hits)
                            &&& outcomes@[k].top@.len() == hits@.len()
                            &&& forall|j: int|
                                0 <= j < hits@.len() ==> (#[trigger] outcomes@[k].top@[j])@
                                    == top_entry_spec(hits@[j], all[k])
                            &&& outcomes@[k].rank == match first_useful(hits@, all[k]) {
                                Some(j) => Some((j + 1) as usize),
                                None => None::<usize>,
                            }
                        }
                },
        decreases n - i,
    {
        let case = rest.remove(0);
        assert(case == all[i as int]);
        assert(rest@ =~= all.skip(i + 1));
        let query = eval_query(&case);
        let hits = search(&query);
        let limit = query.limit;
        let outcome = evaluate_case(case, &hits, limit);
        outcomes.push(outcome);
        proof {
            let k = i as int;
            assert(outcomes@[k] == outcome);
            assert(exists|q: SearchQuery, h: Vec<RankedHit>|
                {
                    &&& is_eval_query(q, all[k])
                    &&& call_ensures(*search, (&q,), h)
                    &&& outcomes@[k].top@.len() == h@.len()
                    &&& forall|j: int|
                        0 <= j < h@.len() ==> (#[trigger] outcomes@[k].top@[j])@ == top_entry_spec(
                            h@[j],
                            all[k],
                        )
                    &&& outcomes@[k].rank == match first_useful(h@, all[k]) {
                        Some(j) => Some((j + 1) as usize),
                        None => None::<usize>,
                    }
                }) by {
                assert(query.text@ == all[k].text@);
            }
        }
        i = i + 1;
    }
    outcomes
}

/// How many outcomes pass.
pub open spec fn passed_count(os: Seq<EvalOutcome>) -> nat
    decreases os.len(),
{
    if os.len() == 0 {
        0
    } else {
        passed_count(os.drop_last()) + if passed_spec(os.last()) {
            1nat
        } else {
            0nat
        }
    }
}

/// The number of passing outcomes.
pub fn count_passed(outcomes: &Vec<EvalOutcome>) -> (r: usize)
    ensures
        r == passed_count(outcomes@),
{
    let mut n: usize = 0;
    let mut i: usize = 0;
    while i < outcomes.len()
        invariant
            i <= outcomes@.len(),
            n == passed_count(outcomes@.take(i as int)),
            n <= i,
        decreases outcomes@.len() - i,
    {
        assert(outcomes@.take(i + 1).drop_last() =~= outcomes@.take(i as int));
        if outcomes[i].passed() {
            n = n + 1;
        }
        i = i + 1;
    }
    assert(outcomes@.take(i as int) =~= outcomes@);
    n
}

/// The positions of the failing outcomes, in order.
pub open spec fn failed_positions_spec(os: Seq<EvalOutcome>) -> Seq<usize>
    decreases os.len(),
{
    if os.len() == 0 {
        Seq::empty()
    } else {
        let rest = failed_positions_spec(os.drop_last());
        if passed_spec(os.last()) {
            rest
        } else {
            rest.push((os.len() - 1) as usize)
        }
    }
}

/// The positions of the outcomes that fail, in order: the failures that a
/// summary lists.
pub fn failed_positions(outcomes: &Vec<EvalOutcome>) -> (r: Vec<usize>)
    ensures
        r@ == failed_positions_spec(outcomes@),
{
    let mut out: Vec<usize> = Vec::new();
    let mut i: usize = 0;
    while i < outcomes.len()
        invariant
            i <= outcomes@.len(),
            out@ == failed_positions_spec(outcomes@.take(i as int)),
        decreases outcomes@.len() - i,
    {
        assert(outcomes@.take(i + 1).drop_last() =~= outcomes@.take(i as int));
        if !outcomes[i].passed() {
            out.push(i);
        }
        i = i + 1;
    }
    assert(outcomes@.take(i as int) =~= outcomes@);
    out
}

/// Every outcome is counted once: it passes, or its position is listed
/// among the failures (of outcomes that a vector can hold).
pub proof fn law_outcomes_pass_or_fail(os: Seq<EvalOutcome>)
    requires
        os.len() <= usize::MAX,
    ensures
        passed_count(os) + failed_positions_spec(os).len() == os.len(),
        forall|k: int|
            0 <= k < failed_positions_spec(os).len() ==> {
                let i = #[trigger] failed_positions_spec(os)[k] as int;
                0 <= i < os.len() && !passed_spec(os[i])
            },
    decreases os.len(),
{
    if os.len() > 0 {
        law_outcomes_pass_or_fail(os.drop_last());
        let rest = failed_positions_spec(os.drop_last());
        assert forall|k: int| 0 <= k < failed_positions_spec(os).len() implies {
            let i = #[trigger] failed_positions_spec(os)[k] as int;
            0 <= i < os.len() && !passed_spec(os[i])
        } by {
            if k < rest.len() {
                assert(failed_positions_spec(os)[k] == rest[k]);
                let i = rest[k] as int;
                assert(0 <= i < os.len() - 1 && !passed_spec(os.drop_last()[i]));
                assert(os.drop_last()[i] == os[i]);
            } else {
                assert(!passed_spec(os.last()));
                assert(failed_positions_spec(os)[k] == (os.len() - 1) as usize);
            }
        }
    }
}

proof fn lemma_first_useful(hits: Seq<RankedHit>, c: EvalCase)
    ensures
        match first_useful(hits, c) {
            Some(i) => 0 <= i < hits.len() && hit_matches_spec(hits[i], c) && forall|j: int|
                0 <= j < i ==> !hit_matches_spec(#[trigger] hits[j], c),
            None => forall|j: int| 0 <= j < hits.len() ==> !hit_matches_spec(#[trigger] hits[j], c),
        },
    decreases hits.len(),
{
    if hits.len() > 0 {
        let d = hits.drop_last();
        lemma_first_useful(d, c);
        assert forall|j: int| 0 <= j < d.len() implies d[j] == hits[j] by {}
    }
}

/// A case passes exactly when one of the results within its threshold is
/// useful: the rank of the first useful hit is at most `max_rank`.
pub proof fn law_pass_iff_useful_hit_within_threshold(o: EvalOutcome, hits: Seq<RankedHit>)
    requires
        hits.len() < usize::MAX,
        o.rank == match first_useful(hits, o.case) {
            Some(i) => Some((i + 1) as usize),
            None => None::<usize>,
        },
    ensures
        passed_spec(o) <==> exists|j: int|
            0 <= j < hits.len() && j < o.case.max_rank && hit_matches_spec(#[trigger] hits[j], o.case),
{
    let case = o.case;
    lemma_first_useful(hits, case);
    match first_useful(hits, case) {
        Some(i) => {
            if exists|j: int|
                0 <= j < hits.len() && j < case.max_rank && hit_matches_spec(
                    #[trigger] hits[j],
                    case,
                ) {
                let j = choose|j: int|
                    0 <= j < hits.len() && j < case.max_rank && hit_matches_spec(
                        #[trigger] hits[j],
                        case,
                    );
                assert(i <= j);
            }
        },
        None => {},
    }
}

/// No more outcomes pass than there are.
pub proof fn law_passed_count_bounded(os: Seq<EvalOutcome>)
    ensures
        passed_count(os) <= os.len(),
    decreases os.len(),
{
    if os.len() > 0 {
        law_passed_count_bounded(os.drop_last());
    }
}

/// An expected package written `name@version` (with an `@`-free name)
/// accepts exactly the hits of that name at that version, and a bare name
/// accepts every version of that name and nothing else.
pub proof fn law_package_spec_matches_exactly(
    n: Seq<char>,
    v: Seq<char>,
    name: Seq<char>,
    version: Seq<char>,
)
    requires
        !n.contains('@'),
    ensures
        package_ok(n + "@"@ + v, name, version) <==> (name == n && version == v),
        package_ok(n, name, version) <==> name == n,
{
    crate::cargo::lemma_first_at_of_versioned(n, v);
    crate::cargo::lemma_first_at_spec(n);
}

/// The first useful hit of a case that expects `name@version` comes from
/// exactly that package: a hit of another version is never ranked.
pub proof fn law_ranked_hit_has_expected_package(
    hits: Seq<RankedHit>,
    c: EvalCase,
    n: Seq<char>,
    v: Seq<char>,
)
    requires
        c.expect_package matches Some(e) && e@ == n + "@"@ + v,
        !n.contains('@'),
    ensures
        first_useful(hits, c) matches Some(i) ==> hits[i].package_name@ == n
            && hits[i].package_version@ == v,
        forall|j: int|
            0 <= j < hits.len() && (#[trigger] hits[j].package_name@ != n || hits[j].package_version@
                != v) ==> !hit_matches_spec(hits[j], c),
{
    lemma_first_useful(hits, c);
    assert forall|name: Seq<char>, version: Seq<char>|
        #[trigger] package_ok(n + "@"@ + v, name, version) <==> (name == n && version == v) by {
        law_package_spec_matches_exactly(n, v, name, version);
    }
}

} // verus!
