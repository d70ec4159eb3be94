//! Ranking of scored items: largest score first, equal scores in the order
//! in which they were given.

use vstd::prelude::*;
use crate::scalar::Scalar;

verus! {

/// No score is a NaN, so that any two of them compare.
pub open spec fn comparable(scores: Seq<Scalar>) -> bool {
    forall|i: int| 0 <= i < scores.len() ==> !(#[trigger] scores[i]).nan()
}

/// Item `i` is ranked ahead of item `j`: its score is larger, or the scores
/// are equal and it comes first.
pub open spec fn ranks_before(scores: Seq<Scalar>, i: int, j: int) -> bool {
    scores[i].key() > scores[j].key() || (scores[i].key() == scores[j].key() && i < j)
}

/// Every item that `order` lists is ranked ahead of item `j`.
pub open spec fn outranked(scores: Seq<Scalar>, order: Seq<usize>, j: int) -> bool {
    forall|k: int| 0 <= k < order.len() ==> ranks_before(scores, #[trigger] order[k] as int, j)
}

/// `order` lists the `order.len()` best items of `scores`, best first.
pub open spec fn is_ranking(scores: Seq<Scalar>, order: Seq<usize>) -> bool {
    &&& forall|k: int| 0 <= k < order.len() ==> (#[trigger] order[k]) < scores.len()
    &&& forall|k: int, l: int|
        0 <= k < l < order.len() ==> ranks_before(
            scores,
            #[trigger] order[k] as int,
            #[trigger] order[l] as int,
        )
    &&& forall|j: int|
        0 <= j < scores.len() ==> order.contains(j as usize) || #[trigger] outranked(
            scores,
            order,
            j,
        )
}

/// The smaller of the two.
pub open spec fn min_len(n: int, len: int) -> int {
    if n < len {
        n
    } else {
        len
    }
}

/// Whether item `i` goes ahead of item `j`.
pub fn goes_before(scores: &Vec<Scalar>, i: usize, j: usize) -> (r: bool)
    requires
        i < scores.len(),
        j < scores.len(),
    ensures
        r == ranks_before(scores@, i as int, j as int),
{
    let a: i64 = scores[i].order_key();
    let b: i64 = scores[j].order_key();
    a > b || (a == b && i < j)
}

spec fn is_arrangement(idx: Seq<usize>, len: int) -> bool {
    &&& idx.len() == len
    &&& forall|p: int| 0 <= p < len ==> (#[trigger] idx[p]) < len
    &&& forall|p: int, q: int| 0 <= p < q < len ==> #[trigger] idx[p] != #[trigger] idx[q]
    &&& forall|j: usize| j < len ==> #[trigger] idx.contains(j)
}

spec fn settled(scores: Seq<Scalar>, idx: Seq<usize>, k: int) -> bool {
    &&& forall|p: int, q: int|
        0 <= p < k && p < q < idx.len() ==> ranks_before(
            scores,
            #[trigger] idx[p] as int,
            #[trigger] idx[q] as int,
        )
}

/// The indices of the `n` largest scores, largest first; among equal scores
/// the lower index first. Fewer than `n` where there are fewer items.
pub fn top_indices(scores: &Vec<Scalar>, n: usize) -> (order: Vec<usize>)
    requires
        comparable(scores@),
    ensures
        order@.len() == min_len(n as int, scores@.len() as int),
        is_ranking(scores@, order@),
{
    let len: usize = scores.len();
    let m: usize = if n < len { n } else { len };
    let mut idx: Vec<usize> = Vec::new();
    let mut i: usize = 0;
    while i < len
        invariant
            i <= len,
            idx@.len() == i,
            forall|p: int| 0 <= p < i ==> idx@[p] == p,
        decreases len - i,
    {
        idx.push(i);
        i += 1;
    }
    assert(is_arrangement(idx@, len as int)) by {
        assert forall|j: usize| j < len implies #[trigger] idx@.contains(j) by {
            assert(idx@[j as int] == j);
        }
    }
    let mut k: usize = 0;
    while k < m
        invariant
            k <= m <= len,
            len == scores@.len(),
            is_arrangement(idx@, len as int),
            settled(scores@, idx@, k as int),
        decreases m - k,
    {
        let mut best: usize = k;
        let mut q: usize = k + 1;
        while q < len
            invariant
                k <= best < q <= len,
                k < len,
                len == scores@.len(),
                is_arrangement(idx@, len as int),
                forall|t: int|
                    k <= t < q && t != best ==> ranks_before(
                        scores@,
                        idx@[best as int] as int,
                        #[trigger] idx@[t] as int,
                    ),
            decreases len - q,
        {
            if goes_before(scores, idx[q], idx[best]) {
                best = q;
            }
            q += 1;
        }
        let ghost before = idx@;
        let a: usize = idx[k];
        let b: usize = idx[best];
        idx.set(k, b);
        idx.set(best, a);
        proof {
            let after = idx@;
            assert forall|j: usize| j < len implies #[trigger] after.contains(j) by {
                assert(before.contains(j));
                let p = choose|p: int| 0 <= p < before.len() && before[p] == j;
                if p == k as int {
                    assert(after[best as int] == j);
                } else if p == best as int {
                    assert(after[k as int] == j);
                } else {
                    assert(after[p] == j);
                }
            }
            assert forall|p: int, q: int| 0 <= p < k + 1 && p < q < after.len() implies ranks_before(
                scores@,
                #[trigger] after[p] as int,
                #[trigger] after[q] as int,
            ) by {
                if p < k {
                    let q0 = if q == k as int {
                        best as int
                    } else if q == best as int {
                        k as int
                    } else {
                        q
                    };
                    assert(after[q] == before[q0]);
                    assert(after[p] == before[p]);
                } else {
                    let q0 = if q == best as int {
                        k as int
                    } else {
                        q
                    };
                    assert(after[q] == before[q0]);
                    assert(after[p] == before[best as int]);
                }
            }
        }
        k += 1;
    }
    let mut order: Vec<usize> = Vec::new();
    let mut t: usize = 0;
    while t < m
        invariant
            t <= m <= len,
            idx@.len() == len,
            order@.len() == t,
            forall|p: int| 0 <= p < t ==> order@[p] == idx@[p],
        decreases m - t,
    {
        order.push(idx[t]);
        t += 1;
    }
    proof {
        assert forall|j: int| 0 <= j < scores@.len() implies order@.contains(j as usize)
            || #[trigger] outranked(scores@, order@, j) by {
            assert(idx@.contains(j as usize));
            let p = choose|p: int| 0 <= p < idx@.len() && idx@[p] == j as usize;
            if p < m {
                assert(order@[p] == j as usize);
            } else {
                assert forall|k: int| 0 <= k < order@.len() implies ranks_before(
                    scores@,
                    #[trigger] order@[k] as int,
                    j,
                ) by {
                    assert(order@[k] == idx@[k]);
                    assert(ranks_before(scores@, idx@[k] as int, idx@[p] as int));
                }
            }
        }
        assert forall|k: int, l: int| 0 <= k < l < order@.len() implies ranks_before(
            scores@,
            #[trigger] order@[k] as int,
            #[trigger] order@[l] as int,
        ) by {
            assert(order@[k] == idx@[k]);
            assert(order@[l] == idx@[l]);
        }
    }
    order
}

/// A ranking of given length is the only one: two of them agree item by
/// item.
pub proof fn lemma_ranking_unique(scores: Seq<Scalar>, first: Seq<usize>, second: Seq<usize>)
    requires
        is_ranking(scores, first),
        is_ranking(scores, second),
        first.len() == second.len(),
    ensures
        first == second,
{
    assert forall|k: int| 0 <= k < first.len() implies first[k] == second[k] by {
        lemma_ranking_prefix(scores, first, second, k);
    }
    assert(first =~= second);
}

proof fn lemma_ranking_prefix(scores: Seq<Scalar>, first: Seq<usize>, second: Seq<usize>, k: int)
    requires
        is_ranking(scores, first),
        is_ranking(scores, second),
        first.len() == second.len(),
        0 <= k < first.len(),
    ensures
        first[k] == second[k],
    decreases k,
{
    if k > 0 {
        assert forall|t: int| 0 <= t < k implies first[t] == second[t] by {
            lemma_ranking_prefix(scores, first, second, t);
        }
    }
    let a = first[k];
    let b = second[k];
    if a != b {
        // where does `a` stand in `second`, and `b` in `first`?
        lemma_place(scores, first, second, k);
        lemma_place(scores, second, first, k);
    }
}

proof fn lemma_place(scores: Seq<Scalar>, first: Seq<usize>, second: Seq<usize>, k: int)
    requires
        is_ranking(scores, first),
        is_ranking(scores, second),
        first.len() == second.len(),
        0 <= k < first.len(),
        forall|t: int| 0 <= t < k ==> first[t] == second[t],
        first[k] != second[k],
    ensures
        ranks_before(scores, second[k] as int, first[k] as int),
{
    let a = first[k];
    assert(a < scores.len());
    if second.contains(a) {
        let p = choose|p: int| 0 <= p < second.len() && second[p] == a;
        if p < k {
            assert(first[p] == second[p]);
            assert(ranks_before(scores, first[p] as int, first[k] as int));
        } else {
            assert(p > k);
            assert(ranks_before(scores, second[k] as int, second[p] as int));
        }
    } else {
        assert(outranked(scores, second, a as int));
        assert(ranks_before(scores, second[k] as int, a as int));
    }
}

} // verus!
