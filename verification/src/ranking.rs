//! Ranking of variant-search results.
//!
//! Each configuration's optimization yields a score; the search ranks
//! all results ascending by score (lower is better) and reports the
//! best few. Scores arrive as integer keys in any fixed scale whose
//! order matches the scores' order; integer keys make the ranking a
//! total order with nothing left to chance, where raw floating-point
//! scores would first have to exclude the incomparable not-a-number.

use vstd::prelude::*;

use crate::oven::Oven;

verus! {

/// One scored search result: a configuration and its score key.
pub type ScoredResult = (Oven, i64);

/// Whether the results are in ascending score order.
pub open spec fn results_sorted(s: Seq<ScoredResult>) -> bool {
    forall|x: int, y: int| 0 <= x < y < s.len() ==> (#[trigger] s[x]).1 <= (#[trigger] s[y]).1
}

/// Sorts the results ascending by score key, by insertion. The output
/// is sorted and holds exactly the given results, each as often as it
/// was given.
pub fn rank_results(results: Vec<ScoredResult>) -> (r: Vec<ScoredResult>)
    ensures
        results_sorted(r@),
        r@.to_multiset() == results@.to_multiset(),
{
    let mut r = results;
    let ghost orig = r@;
    let n = r.len();
    if n == 0 {
        return r;
    }
    let mut i: usize = 1;
    while i < n
        invariant
            n == r@.len(),
            1 <= i <= n,
            results_sorted(r@.subrange(0, i as int)),
            r@.to_multiset() == orig.to_multiset(),
        decreases n - i,
    {
        let ghost pre = r@;
        let item = r.remove(i);
        let ghost s = r@;
        proof {
            broadcast use vstd::seq_lib::group_to_multiset_ensures;

            assert(forall|x: int, y: int|
                0 <= x < y < i ==> (#[trigger] s[x]).1 <= (#[trigger] s[y]).1) by {
                assert(forall|k: int| 0 <= k < i ==> pre.subrange(0, i as int)[k] == (
                #[trigger] pre[k]));
            }
        }
        let mut j: usize = i;
        while j > 0 && r[j - 1].1 > item.1
            invariant
                j <= i,
                i < n,
                n == r@.len() + 1,
                r@ == s,
                forall|k: int| j <= k < i ==> (#[trigger] s[k]).1 > item.1,
            decreases j,
        {
            j = j - 1;
        }
        r.insert(j, item);
        proof {
            broadcast use vstd::seq_lib::group_to_multiset_ensures;

            let s2 = r@;
            assert(s2 == s.insert(j as int, item));
            s.insert_ensures(j as int, item);
            assert(s2.remove(j as int) =~= s);
            assert(s2[j as int] == item);
            assert(s2.remove(j as int).to_multiset() =~= s2.to_multiset().remove(item));
            assert(s2.contains(item));
            assert(s2.to_multiset().count(item) > 0);
            assert(s2.to_multiset() =~= s.to_multiset().insert(item));
            assert(s2.to_multiset() == orig.to_multiset());
            // The prefix through the inserted element is sorted: the
            // untouched elements were sorted among themselves, the
            // neighbour left of the insertion point does not exceed the
            // inserted element, and everything shifted right is larger.
            assert forall|x: int, y: int| 0 <= x < y < i + 1 implies (#[trigger] s2[x]).1 <= (
            #[trigger] s2[y]).1 by {
                if y < j {
                    assert(s2[x] == s[x] && s2[y] == s[y]);
                } else if y == j {
                    assert(s2[x] == s[x] && s2[y] == item);
                    assert(s[j - 1].1 <= item.1);
                    assert(x == j - 1 || s[x].1 <= s[j - 1].1);
                } else {
                    assert(s2[y] == s[y - 1] && j <= y - 1 < i);
                    if x < j {
                        assert(s2[x] == s[x]);
                        assert(s[x].1 <= s[y - 1].1);
                    } else if x == j {
                        assert(s2[x] == item);
                        assert(s[y - 1].1 > item.1);
                    } else {
                        assert(s2[x] == s[x - 1] && j <= x - 1 < y - 1);
                        assert(s[x - 1].1 <= s[y - 1].1);
                    }
                }
            }
            assert(results_sorted(s2.subrange(0, i + 1))) by {
                assert(forall|k: int| 0 <= k < i + 1 ==> s2.subrange(0, i + 1)[k] == (
                #[trigger] s2[k]));
            }
        }
        i = i + 1;
    }
    proof {
        assert(r@.subrange(0, n as int) =~= r@);
    }
    r
}

/// The best `n` results of a ranked list: the leading prefix.
pub fn top_results(ranked: &Vec<ScoredResult>, n: usize) -> (r: Vec<ScoredResult>)
    ensures
        r@.len() == if n <= ranked@.len() { n as int } else { ranked@.len() as int },
        r@ == ranked@.subrange(0, r@.len() as int),
{
    let count = if n <= ranked.len() {
        n
    } else {
        ranked.len()
    };
    let mut r: Vec<ScoredResult> = Vec::new();
    let mut i: usize = 0;
    while i < count
        invariant
            i <= count <= ranked@.len(),
            r@.len() == i,
            r@ == ranked@.subrange(0, i as int),
        decreases count - i,
    {
        r.push(ranked[i]);
        proof {
            assert(r@ =~= ranked@.subrange(0, i + 1));
        }
        i = i + 1;
    }
    r
}

/// Ranking by score keys is a total order: of any two keys, exactly
/// one of `a < b`, `a == b`, `a > b` holds, so every pair of results
/// is comparable and the ranked order is unambiguous.
pub proof fn lemma_score_order_total(a: i64, b: i64)
    ensures
        a < b || a == b || a > b,
        a < b ==> !(a == b) && !(a > b),
        a == b ==> !(a < b) && !(a > b),
        a > b ==> !(a < b) && !(a == b),
{
}

} // verus!
