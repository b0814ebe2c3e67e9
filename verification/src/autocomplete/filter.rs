//! Fuzzy filtering of option labels with nucleo-matcher.
use vstd::prelude::*;

verus! {

/// Result of a fuzzy filter operation.
#[derive(Debug, Clone, Copy)]
pub struct FilterMatch {
    /// Index of the matched item in the list of labels.
    pub index: usize,
    /// Match score (higher is better).
    pub score: u32,
}

/// The score that nucleo-matcher gives `label` for the fuzzy pattern
/// `query` (case-insensitive, smart normalization), or `None` when the
/// label does not match.
pub uninterp spec fn fuzzy_score(query: Seq<char>, label: Seq<char>) -> Option<u32>;

/// Score `label` against `query` with nucleo-matcher: `Pattern::new(query,
/// CaseMatching::Ignore, Normalization::Smart, AtomKind::Fuzzy).score(..)`
/// on a fresh `Matcher` with the default configuration. The result depends
/// on the query and the label alone; nothing more of it is stated.
#[verifier::external_body]
fn nucleo_fuzzy_score(query: &str, label: &str) -> (r: Option<u32>)
    ensures
        r == fuzzy_score(query@, label@),
{
    let mut matcher = nucleo_matcher::Matcher::new(nucleo_matcher::Config::DEFAULT);
    let pattern = nucleo_matcher::pattern::Pattern::new(
        query,
        nucleo_matcher::pattern::CaseMatching::Ignore,
        nucleo_matcher::pattern::Normalization::Smart,
        nucleo_matcher::pattern::AtomKind::Fuzzy,
    );
    let mut buf = Vec::new();
    pattern.score(nucleo_matcher::Utf32Str::new(label, &mut buf), &mut matcher)
}

/// `a` comes before `b` in a ranking: higher score first, and among equal
/// scores the lower index first.
pub open spec fn ranks_before(a: FilterMatch, b: FilterMatch) -> bool {
    a.score > b.score || (a.score == b.score && a.index < b.index)
}

/// `r` lists, best first, every index whose score is `Some`, each with its
/// score, and nothing else.
pub open spec fn is_ranking(scores: Seq<Option<u32>>, r: Seq<FilterMatch>) -> bool {
    &&& forall|k: int| 0 <= k < r.len() ==> {
        &&& #[trigger] r[k].index < scores.len()
        &&& scores[r[k].index as int] == Some(r[k].score)
    }
    &&& forall|i: int| 0 <= i < scores.len() && scores[i] is Some ==>
        exists|k: int| 0 <= k < r.len() && #[trigger] r[k].index == i
    &&& forall|k: int, l: int| 0 <= k < l < r.len() ==> ranks_before(r[k], r[l])
}

/// Rank the matched items: every index with a score, highest score first,
/// equal scores in index order (a stable sort by descending score).
pub fn rank_matches(scores: &Vec<Option<u32>>) -> (r: Vec<FilterMatch>)
    ensures
        is_ranking(scores@, r@),
{
    let mut out: Vec<FilterMatch> = Vec::new();
    let mut i: usize = 0;
    while i < scores.len()
        invariant
            i <= scores@.len(),
            is_ranking(scores@.subrange(0, i as int), out@),
            forall|k: int| 0 <= k < out@.len() ==> #[trigger] out@[k].index < i,
        decreases scores@.len() - i,
    {
        let ghost prev = out@;
        let ghost sub = scores@.subrange(0, i + 1);
        assert forall|k: int| 0 <= k < prev.len() implies #[trigger] prev[k].index < sub.len()
            && sub[prev[k].index as int] == Some(prev[k].score) by {
            assert(scores@.subrange(0, i as int)[prev[k].index as int] == sub[prev[k].index as int]);
        }
        match scores[i] {
            Some(score) => {
                let m = FilterMatch { index: i, score };
                let mut p: usize = 0;
                while p < out.len() && out[p].score >= score
                    invariant
                        p <= out@.len(),
                        out@ == prev,
                        forall|k: int| 0 <= k < p ==> out@[k].score >= score,
                    decreases out@.len() - p,
                {
                    p = p + 1;
                }
                out.insert(p, m);
                proof {
                    assert forall|k: int, l: int| 0 <= k < l < out@.len() implies ranks_before(out@[k], out@[l]) by {
                        if l < p {
                            assert(out@[k] == prev[k] && out@[l] == prev[l]);
                        } else if l == p {
                            assert(out@[k] == prev[k]);
                        } else if k < p {
                            assert(out@[k] == prev[k] && out@[l] == prev[l - 1]);
                            assert(prev[k].score >= score);
                            if p < prev.len() {
                                assert(prev[p as int].score < score);
                                assert(ranks_before(prev[k], prev[l - 1]) || k == l - 1);
                            }
                        } else if k == p {
                            assert(out@[l] == prev[l - 1]);
                            assert(prev[p as int].score < score);
                            assert(p == l - 1 || ranks_before(prev[p as int], prev[l - 1]));
                        } else {
                            assert(out@[k] == prev[k - 1] && out@[l] == prev[l - 1]);
                        }
                    }
                    assert forall|j: int| 0 <= j < sub.len() && sub[j] is Some implies
                        exists|k: int| 0 <= k < out@.len() && #[trigger] out@[k].index == j by {
                        if j == i {
                            assert(out@[p as int].index == j);
                        } else {
                            assert(scores@.subrange(0, i as int)[j] == sub[j]);
                            let k = choose|k: int| 0 <= k < prev.len() && #[trigger] prev[k].index == j;
                            if k < p {
                                assert(out@[k].index == j);
                            } else {
                                assert(out@[k + 1].index == j);
                            }
                        }
                    }
                    assert forall|k: int| 0 <= k < out@.len() implies #[trigger] out@[k].index < i + 1 by {
                        if k < p { assert(out@[k] == prev[k]); }
                        else if k > p { assert(out@[k] == prev[k - 1]); }
                    }
                    assert forall|k: int| 0 <= k < out@.len() implies #[trigger] out@[k].index < sub.len()
                        && sub[out@[k].index as int] == Some(out@[k].score) by {
                        if k < p { assert(out@[k] == prev[k]); }
                        else if k > p { assert(out@[k] == prev[k - 1]); }
                    }
                }
            },
            None => {
                proof {
                    assert forall|j: int| 0 <= j < sub.len() && sub[j] is Some implies
                        exists|k: int| 0 <= k < out@.len() && #[trigger] out@[k].index == j by {
                        assert(scores@.subrange(0, i as int)[j] == sub[j]);
                    }
                }
            },
        }
        i = i + 1;
    }
    assert(scores@.subrange(0, i as int) =~= scores@);
    out
}

/// Two rankings of the same scores that agree before position `j` agree
/// at `j`.
proof fn lemma_rankings_agree_at(scores: Seq<Option<u32>>, r1: Seq<FilterMatch>, r2: Seq<FilterMatch>, j: int)
    requires
        is_ranking(scores, r1),
        is_ranking(scores, r2),
        0 <= j < r1.len(),
        0 <= j < r2.len(),
        forall|p: int| 0 <= p < j ==> r1[p] == r2[p],
    ensures
        r1[j] == r2[j],
{
    let a = r1[j];
    let b = r2[j];
    if a != b {
        assert(a.index < scores.len() && scores[a.index as int] == Some(a.score));
        assert(b.index < scores.len() && scores[b.index as int] == Some(b.score));
        let pa = choose|k: int| 0 <= k < r2.len() && #[trigger] r2[k].index == a.index;
        assert(r2[pa].index < scores.len() && scores[r2[pa].index as int] == Some(r2[pa].score));
        assert(r2[pa] == a);
        let pb = choose|k: int| 0 <= k < r1.len() && #[trigger] r1[k].index == b.index;
        assert(r1[pb].index < scores.len() && scores[r1[pb].index as int] == Some(r1[pb].score));
        assert(r1[pb] == b);
        if pa < j {
            assert(r1[pa] == a);
            assert(ranks_before(r1[pa], r1[j]));
        } else if pb < j {
            assert(r2[pb] == b);
            assert(ranks_before(r2[pb], r2[j]));
        } else {
            assert(pa > j && pb > j);
            assert(ranks_before(r2[j], r2[pa]));
            assert(ranks_before(r1[j], r1[pb]));
        }
    }
}

/// Two rankings of the same scores agree on their first `j` entries.
proof fn lemma_rankings_agree_below(scores: Seq<Option<u32>>, r1: Seq<FilterMatch>, r2: Seq<FilterMatch>, j: int)
    requires
        is_ranking(scores, r1),
        is_ranking(scores, r2),
        0 <= j <= r1.len(),
        j <= r2.len(),
    ensures
        forall|p: int| 0 <= p < j ==> r1[p] == r2[p],
    decreases j,
{
    if j > 0 {
        lemma_rankings_agree_below(scores, r1, r2, j - 1);
        lemma_rankings_agree_at(scores, r1, r2, j - 1);
    }
}

/// A ranking is determined by the scores: every item that matches, best
/// first, ties in item order, and nothing else leaves no room for two
/// different results.
pub proof fn law_ranking_is_unique(scores: Seq<Option<u32>>, r1: Seq<FilterMatch>, r2: Seq<FilterMatch>)
    requires
        is_ranking(scores, r1),
        is_ranking(scores, r2),
    ensures
        r1 == r2,
{
    let n = if r1.len() < r2.len() { r1.len() } else { r2.len() };
    lemma_rankings_agree_below(scores, r1, r2, n as int);
    if r1.len() < r2.len() {
        let e = r2[n as int];
        assert(e.index < scores.len() && scores[e.index as int] == Some(e.score));
        let p = choose|k: int| 0 <= k < r1.len() && #[trigger] r1[k].index == e.index;
        assert(r1[p].index < scores.len() && scores[r1[p].index as int] == Some(r1[p].score));
        assert(r2[p] == r1[p]);
        assert(ranks_before(r2[p], r2[n as int]));
    } else if r2.len() < r1.len() {
        let e = r1[n as int];
        assert(e.index < scores.len() && scores[e.index as int] == Some(e.score));
        let p = choose|k: int| 0 <= k < r2.len() && #[trigger] r2[k].index == e.index;
        assert(r2[p].index < scores.len() && scores[r2[p].index as int] == Some(r2[p].score));
        assert(r1[p] == r2[p]);
        assert(ranks_before(r1[p], r1[n as int]));
    }
    assert(r1 =~= r2);
}

/// The fuzzy filter's result is determined by the query and the labels.
pub proof fn law_filter_result_is_unique(query: Seq<char>, labels: Seq<String>, r1: Seq<FilterMatch>, r2: Seq<FilterMatch>)
    requires
        is_filter_result(query, labels, r1),
        is_filter_result(query, labels, r2),
    ensures
        r1 == r2,
{
    if query.len() == 0 {
        assert forall|k: int| 0 <= k < r1.len() implies r1[k] == r2[k] by {
            assert(r1[k].index == k && r1[k].score == 0);
            assert(r2[k].index == k && r2[k].score == 0);
        }
        assert(r1 =~= r2);
    } else {
        law_ranking_is_unique(scores_for(query, labels), r1, r2);
    }
}

/// The scores of `labels` for `query`.
pub open spec fn scores_for(query: Seq<char>, labels: Seq<String>) -> Seq<Option<u32>> {
    Seq::new(labels.len(), |i: int| fuzzy_score(query, labels[i]@))
}

/// `r` is what [`fuzzy_filter`] returns for `query` over `labels`.
pub open spec fn is_filter_result(query: Seq<char>, labels: Seq<String>, r: Seq<FilterMatch>) -> bool {
    &&& query.len() == 0 ==> r.len() == labels.len()
    &&& query.len() == 0 ==> forall|k: int| 0 <= k < r.len() ==> (#[trigger] r[k]).index == k && r[k].score == 0
    &&& query.len() > 0 ==> is_ranking(scores_for(query, labels), r)
}

/// Fuzzy filter: the labels that match `query`, best first (see
/// [`rank_matches`]). An empty query returns every item with score 0, in
/// order.
pub fn fuzzy_filter(query: &str, items: &[String]) -> (r: Vec<FilterMatch>)
    ensures
        is_filter_result(query@, items@, r@),
{
    if query.unicode_len() == 0 {
        let mut all: Vec<FilterMatch> = Vec::new();
        let mut i: usize = 0;
        while i < items.len()
            invariant
                i <= items@.len(),
                all@.len() == i,
                forall|k: int| 0 <= k < i ==> (#[trigger] all@[k]).index == k && all@[k].score == 0,
            decreases items@.len() - i,
        {
            all.push(FilterMatch { index: i, score: 0 });
            i = i + 1;
        }
        return all;
    }
    let mut scores: Vec<Option<u32>> = Vec::new();
    let mut i: usize = 0;
    while i < items.len()
        invariant
            i <= items@.len(),
            scores@ == scores_for(query@, items@).subrange(0, i as int),
        decreases items@.len() - i,
    {
        let s = nucleo_fuzzy_score(query, items[i].as_str());
        scores.push(s);
        proof {
            assert(scores@ =~= scores_for(query@, items@).subrange(0, i + 1));
        }
        i = i + 1;
    }
    proof {
        assert(scores@ =~= scores_for(query@, items@));
    }
    rank_matches(&scores)
}

} // verus!
