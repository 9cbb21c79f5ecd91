//! Stable ordering of items by a two-part integer rank.
//!
//! Every sort in the library orders items ascending by a primary rank and,
//! among equal primary ranks, descending by a secondary value (most recent
//! first); items whose ranks are equal keep their input order.
use vstd::prelude::*;

verus! {

/// `a` comes strictly before `b`: smaller primary rank, or the same primary
/// rank and a larger secondary value.
pub open spec fn rank_before(a: (i64, i64), b: (i64, i64)) -> bool {
    a.0 < b.0 || (a.0 == b.0 && a.1 > b.1)
}

/// `perm` witnesses that `res` is `items` stably ordered by `ranks`:
/// `res[j] == items[perm[j]]`, `perm` is a permutation of the indices,
/// ranks never go backwards along `res`, and items of equal rank keep their
/// input order.
pub open spec fn is_stable_order<T>(
    res: Seq<T>,
    items: Seq<T>,
    ranks: Seq<(i64, i64)>,
    perm: Seq<int>,
) -> bool {
    &&& items.len() == ranks.len()
    &&& perm.len() == items.len()
    &&& res.len() == items.len()
    &&& forall|j: int| 0 <= j < perm.len() ==> 0 <= #[trigger] perm[j] < items.len()
    &&& forall|a: int, b: int|
        0 <= a < b < perm.len() ==> #[trigger] perm[a] != #[trigger] perm[b]
    &&& forall|j: int| 0 <= j < res.len() ==> #[trigger] res[j] == items[perm[j]]
    &&& forall|a: int, b: int|
        0 <= a < b < perm.len() ==> !rank_before(
            ranks[#[trigger] perm[b]],
            ranks[#[trigger] perm[a]],
        )
    &&& forall|a: int, b: int|
        0 <= a < b < perm.len() && ranks[#[trigger] perm[a]] == ranks[#[trigger] perm[b]]
            ==> perm[a] < perm[b]
}

/// `res` is `items` stably ordered by `ranks`.
pub open spec fn stably_ordered<T>(res: Seq<T>, items: Seq<T>, ranks: Seq<(i64, i64)>) -> bool {
    exists|perm: Seq<int>| is_stable_order(res, items, ranks, perm)
}

/// Orders `items` by `ranks` (`ranks[i]` belongs to `items[i]`), stably.
pub fn stable_sort_by_rank<T>(items: Vec<T>, ranks: Vec<(i64, i64)>) -> (res: Vec<T>)
    requires
        items.len() == ranks.len(),
    ensures
        stably_ordered(res@, items@, ranks@),
{
    let ghost orig_items = items@;
    let ghost orig_ranks = ranks@;
    let ghost n = items.len() as int;
    let mut items = items;
    let mut ranks = ranks;
    let mut res: Vec<T> = Vec::new();
    let mut res_ranks: Vec<(i64, i64)> = Vec::new();
    let ghost mut perm: Seq<int> = Seq::empty();
    while items.len() > 0
        invariant
            items.len() == ranks.len(),
            0 <= items.len() <= n,
            n == orig_items.len(),
            n == orig_ranks.len(),
            items@ == orig_items.take(items.len() as int),
            ranks@ == orig_ranks.take(items.len() as int),
            res.len() == res_ranks.len(),
            perm.len() == res.len(),
            res.len() + items.len() == n,
            forall|j: int| 0 <= j < perm.len() ==> items.len() <= #[trigger] perm[j] < n,
            forall|a: int, b: int|
                0 <= a < b < perm.len() ==> #[trigger] perm[a] != #[trigger] perm[b],
            forall|j: int| 0 <= j < res.len() ==> #[trigger] res@[j] == orig_items[perm[j]],
            forall|j: int| 0 <= j < res.len() ==> #[trigger] res_ranks@[j] == orig_ranks[perm[j]],
            forall|a: int, b: int|
                0 <= a < b < res_ranks.len() ==> !rank_before(
                    #[trigger] res_ranks@[b],
                    #[trigger] res_ranks@[a],
                ),
            forall|a: int, b: int|
                0 <= a < b < res_ranks.len() && #[trigger] res_ranks@[a]
                    == #[trigger] res_ranks@[b] ==> perm[a] < perm[b],
        decreases items.len(),
    {
        let x = items.pop().unwrap();
        let k = ranks.pop().unwrap();
        let ghost idx = items.len() as int;
        assert(x == orig_items[idx]);
        assert(k == orig_ranks[idx]);
        let mut pos: usize = 0;
        while pos < res_ranks.len() && (res_ranks[pos].0 < k.0 || (res_ranks[pos].0 == k.0
            && res_ranks[pos].1 > k.1))
            invariant
                pos <= res_ranks.len(),
                forall|j: int| 0 <= j < pos ==> rank_before(#[trigger] res_ranks@[j], k),
            decreases res_ranks.len() - pos,
        {
            pos = pos + 1;
        }
        assert forall|j: int| pos <= j < res_ranks.len() implies !rank_before(
            #[trigger] res_ranks@[j],
            k,
        ) by {
            if j > pos {
                assert(!rank_before(res_ranks@[j], res_ranks@[pos as int]));
            }
        }
        let ghost old_ranks = res_ranks@;
        let ghost old_res = res@;
        let ghost old_perm = perm;
        res.insert(pos, x);
        res_ranks.insert(pos, k);
        proof {
            perm = perm.insert(pos as int, idx);
            assert forall|a: int, b: int|
                0 <= a < b < res_ranks.len() implies !rank_before(
                #[trigger] res_ranks@[b],
                #[trigger] res_ranks@[a],
            ) by {
                if a < pos && b < pos {
                    assert(res_ranks@[a] == old_ranks[a] && res_ranks@[b] == old_ranks[b]);
                } else if a < pos && b == pos {
                } else if a < pos && b > pos {
                    assert(res_ranks@[a] == old_ranks[a] && res_ranks@[b] == old_ranks[b - 1]);
                    assert(rank_before(old_ranks[a], k));
                    assert(!rank_before(old_ranks[b - 1], k));
                } else if a == pos {
                    assert(res_ranks@[b] == old_ranks[b - 1]);
                } else {
                    assert(res_ranks@[a] == old_ranks[a - 1] && res_ranks@[b] == old_ranks[b
                        - 1]);
                }
            }
            assert forall|a: int, b: int|
                0 <= a < b < res_ranks.len() && #[trigger] res_ranks@[a]
                    == #[trigger] res_ranks@[b] implies perm[a] < perm[b] by {
                if a < pos && b < pos {
                    assert(res_ranks@[a] == old_ranks[a] && res_ranks@[b] == old_ranks[b]);
                } else if a < pos && b == pos {
                    assert(rank_before(old_ranks[a], k));
                } else if a < pos && b > pos {
                    assert(res_ranks@[a] == old_ranks[a] && res_ranks@[b] == old_ranks[b - 1]);
                    assert(rank_before(old_ranks[a], k));
                    assert(!rank_before(old_ranks[b - 1], k));
                } else if a == pos {
                    assert(perm[b] == old_perm[b - 1]);
                    assert(items.len() <= old_perm[b - 1]);
                } else {
                    assert(res_ranks@[a] == old_ranks[a - 1] && res_ranks@[b] == old_ranks[b
                        - 1]);
                }
            }
            assert forall|j: int| 0 <= j < perm.len() implies items.len() <= #[trigger] perm[j]
                < n by {
                if j < pos {
                    assert(perm[j] == old_perm[j]);
                } else if j > pos {
                    assert(perm[j] == old_perm[j - 1]);
                }
            }
            assert forall|a: int, b: int|
                0 <= a < b < perm.len() implies #[trigger] perm[a] != #[trigger] perm[b] by {
                if a != pos && b != pos {
                    let oa = if a < pos {
                        a
                    } else {
                        a - 1
                    };
                    let ob = if b < pos {
                        b
                    } else {
                        b - 1
                    };
                    assert(perm[a] == old_perm[oa] && perm[b] == old_perm[ob]);
                } else if a == pos {
                    assert(perm[b] == old_perm[b - 1]);
                } else {
                    assert(perm[a] == old_perm[a]);
                }
            }
            assert forall|j: int| 0 <= j < res.len() implies #[trigger] res@[j]
                == orig_items[perm[j]] by {
                if j < pos {
                    assert(res@[j] == old_res[j] && perm[j] == old_perm[j]);
                } else if j > pos {
                    assert(res@[j] == old_res[j - 1] && perm[j] == old_perm[j - 1]);
                }
            }
            assert forall|j: int| 0 <= j < res.len() implies #[trigger] res_ranks@[j]
                == orig_ranks[perm[j]] by {
                if j < pos {
                    assert(res_ranks@[j] == old_ranks[j] && perm[j] == old_perm[j]);
                } else if j > pos {
                    assert(res_ranks@[j] == old_ranks[j - 1] && perm[j] == old_perm[j - 1]);
                }
            }
            assert(items@ =~= orig_items.take(items.len() as int));
            assert(ranks@ =~= orig_ranks.take(items.len() as int));
        }
    }
    proof {
        assert forall|a: int, b: int|
            0 <= a < b < perm.len() implies !rank_before(
            orig_ranks[#[trigger] perm[b]],
            orig_ranks[#[trigger] perm[a]],
        ) by {
            assert(res_ranks@[a] == orig_ranks[perm[a]]);
            assert(res_ranks@[b] == orig_ranks[perm[b]]);
        }
        assert forall|a: int, b: int|
            0 <= a < b < perm.len() && orig_ranks[#[trigger] perm[a]]
                == orig_ranks[#[trigger] perm[b]] implies perm[a] < perm[b] by {
            assert(res_ranks@[a] == orig_ranks[perm[a]]);
            assert(res_ranks@[b] == orig_ranks[perm[b]]);
        }
        assert(is_stable_order(res@, orig_items, orig_ranks, perm));
    }
    res
}

/// The same items in reverse order.
pub fn reversed<T>(v: Vec<T>) -> (r: Vec<T>)
    ensures
        r@.len() == v@.len(),
        forall|j: int| 0 <= j < r@.len() ==> #[trigger] r@[j] == v@[v@.len() - 1 - j],
{
    let ghost orig = v@;
    let mut v = v;
    let mut r: Vec<T> = Vec::new();
    while v.len() > 0
        invariant
            v.len() <= orig.len(),
            v@ == orig.take(v.len() as int),
            r@.len() + v@.len() == orig.len(),
            forall|j: int| 0 <= j < r@.len() ==> #[trigger] r@[j] == orig[orig.len() - 1 - j],
        decreases v.len(),
    {
        let x = v.pop().unwrap();
        r.push(x);
        proof {
            assert(v@ =~= orig.take(v.len() as int));
        }
    }
    r
}

} // verus!
