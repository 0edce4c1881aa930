//! Distance-ordered selection for proximity queries.
//!
//! Each proximity query ends in a plain decision over distances: the
//! nearest query keeps the minimum, the range query keeps everything at
//! most the radius, the k-nearest query sorts ascending and keeps the
//! first k, and the group sweep keeps the maximum. The distance
//! computation is floating-point geometry done by the caller; each distance
//! arrives here as an order-preserving 64-bit key (the IEEE-754 bit pattern
//! of a non-negative, non-NaN double orders exactly like the double
//! itself), and the decisions are verified over those keys. Ties between
//! equal distances break deterministically by ascending identifier.

use vstd::prelude::*;
use vstd::math::min;
use vstd::multiset::Multiset;
use vstd::relations::{sorted_by, total_ordering};
use vstd::seq_lib::lemma_sorted_unique;

verus! {

broadcast use vstd::seq_lib::group_to_multiset_ensures;

/// Whether a 64-bit pattern is that of a non-negative, non-NaN double
/// (everything from +0.0 up to and including +infinity). On exactly these
/// patterns the unsigned order of the bits is the order of the values, so
/// a comparison of two distances may be carried out on their patterns.
pub open spec fn spec_ordered_key(bits: u64) -> bool {
    bits <= 0x7FF0_0000_0000_0000
}

/// Order on `(id, distance key)` candidates: ascending distance key, ties
/// broken by ascending identifier.
pub open spec fn spec_nearer_le() -> spec_fn((u32, u64), (u32, u64)) -> bool {
    |a: (u32, u64), b: (u32, u64)| a.1 < b.1 || (a.1 == b.1 && a.0 <= b.0)
}

/// Sort candidates ascending by distance key, ties by identifier; the
/// result is the unique sorted arrangement of the input's elements.
fn sort_candidates(input: Vec<(u32, u64)>) -> (out: Vec<(u32, u64)>)
    ensures
        out@ == input@.sort_by(spec_nearer_le()),
{
    let ghost orig = input@;
    let mut rest = input;
    let mut out: Vec<(u32, u64)> = Vec::new();
    while rest.len() > 0
        invariant
            out@.to_multiset().add(rest@.to_multiset()) == orig.to_multiset(),
            sorted_by(out@, spec_nearer_le()),
            forall|i: int, j: int|
                0 <= i < out@.len() && 0 <= j < rest@.len() ==> spec_nearer_le()(
                    #[trigger] out@[i],
                    #[trigger] rest@[j],
                ),
        decreases rest@.len(),
    {
        let mut m: usize = 0;
        let mut k: usize = 1;
        while k < rest.len()
            invariant
                m < k <= rest@.len(),
                rest@.len() > 0,
                forall|j: int|
                    0 <= j < k ==> spec_nearer_le()(rest@[m as int], #[trigger] rest@[j]),
            decreases rest@.len() - k,
        {
            let (cid, cdist) = rest[k];
            let (mid, mdist) = rest[m];
            if cdist < mdist || (cdist == mdist && cid <= mid) {
                m = k;
            }
            k = k + 1;
        }
        let x = rest.remove(m);
        out.push(x);
        proof {
            assert(out@.to_multiset().add(rest@.to_multiset()) =~= orig.to_multiset());
        }
    }
    proof {
        assert(rest@.to_multiset() =~= Multiset::<(u32, u64)>::empty());
        assert(out@.to_multiset() =~= orig.to_multiset());
        orig.lemma_sort_by_ensures(spec_nearer_le());
        assert(total_ordering(spec_nearer_le()));
        lemma_sorted_unique(out@, orig.sort_by(spec_nearer_le()), spec_nearer_le());
    }
    out
}

/// The k nearest candidates: sorted ascending by distance key, ties by
/// identifier, truncated to the first `k`.
///
/// With `k` at least the number of candidates the result is all of them,
/// sorted; with `k == 0`, or with no candidates, it is empty.
pub fn k_smallest(candidates: Vec<(u32, u64)>, k: usize) -> (out: Vec<(u32, u64)>)
    ensures
        out@ == candidates@.sort_by(spec_nearer_le()).take(
            min(k as int, candidates@.len() as int),
        ),
        sorted_by(out@, spec_nearer_le()),
        k >= candidates@.len() ==> out@ == candidates@.sort_by(spec_nearer_le()),
        k == 0 ==> out@ == Seq::<(u32, u64)>::empty(),
{
    let ghost orig = candidates@;
    let mut out = sort_candidates(candidates);
    proof {
        orig.lemma_sort_by_ensures(spec_nearer_le());
    }
    out.truncate(k);
    proof {
        let sorted = orig.sort_by(spec_nearer_le());
        assert(orig.to_multiset().len() == orig.len());
        assert(sorted.to_multiset().len() == sorted.len());
        assert(sorted.len() == orig.len());
        assert(out@ =~= sorted.take(min(k as int, orig.len() as int)));
        if k >= orig.len() {
            assert(out@ =~= sorted);
        }
        if k == 0 {
            assert(out@ =~= Seq::<(u32, u64)>::empty());
        }
    }
    out
}

/// The nearest candidate: the minimum by distance key, ties broken by
/// ascending identifier. `None` exactly when there are no candidates.
pub fn min_candidate(candidates: &Vec<(u32, u64)>) -> (r: Option<(u32, u64)>)
    ensures
        r is None <==> candidates@.len() == 0,
        r matches Some(m) ==> candidates@.contains(m) && forall|j: int|
            0 <= j < candidates@.len() ==> spec_nearer_le()(m, #[trigger] candidates@[j]),
{
    if candidates.len() == 0 {
        return None;
    }
    let mut best = candidates[0];
    let mut i: usize = 1;
    proof {
        assert(candidates@.subrange(0, 1)[0] == best);
    }
    while i < candidates.len()
        invariant
            0 < i <= candidates@.len(),
            candidates@.subrange(0, i as int).contains(best),
            forall|j: int| 0 <= j < i ==> spec_nearer_le()(best, #[trigger] candidates@[j]),
        decreases candidates@.len() - i,
    {
        let (cid, cdist) = candidates[i];
        let (bid, bdist) = best;
        if cdist < bdist || (cdist == bdist && cid < bid) {
            best = candidates[i];
            proof {
                assert(candidates@.subrange(0, i + 1)[i as int] == best);
            }
        } else {
            proof {
                let pre = candidates@.subrange(0, i as int);
                let cur = candidates@.subrange(0, i + 1);
                let w = choose|w: int| 0 <= w < pre.len() && pre[w] == best;
                assert(cur[w] == best);
            }
        }
        i = i + 1;
    }
    proof {
        assert(candidates@.subrange(0, candidates@.len() as int) =~= candidates@);
    }
    Some(best)
}

/// The candidates within range: exactly those whose distance key is at
/// most the radius key, in input order.
pub fn filter_within(candidates: &Vec<(u32, u64)>, radius_key: u64) -> (out: Vec<(u32, u64)>)
    ensures
        out@ == candidates@.filter(|p: (u32, u64)| p.1 <= radius_key),
{
    let mut out: Vec<(u32, u64)> = Vec::new();
    let mut i: usize = 0;
    proof {
        reveal(Seq::filter);
    }
    while i < candidates.len()
        invariant
            i <= candidates@.len(),
            out@ == candidates@.subrange(0, i as int).filter(|p: (u32, u64)| p.1 <= radius_key),
        decreases candidates@.len() - i,
    {
        let c = candidates[i];
        proof {
            reveal(Seq::filter);
            let pred = |p: (u32, u64)| p.1 <= radius_key;
            let pre = candidates@.subrange(0, i as int);
            let prefix = candidates@.subrange(0, i + 1);
            assert(prefix.drop_last() =~= pre);
            assert(prefix.last() == c);
            assert(prefix.filter(pred) == if pred(c) {
                pre.filter(pred).push(c)
            } else {
                pre.filter(pred)
            });
        }
        if c.1 <= radius_key {
            out.push(c);
        }
        i = i + 1;
    }
    proof {
        assert(candidates@.subrange(0, candidates@.len() as int) =~= candidates@);
    }
    out
}

/// The largest of a set of distance keys, never below zero.
pub open spec fn spec_max_key(keys: Seq<u64>) -> u64
    decreases keys.len(),
{
    if keys.len() == 0 {
        0u64
    } else {
        let rest = spec_max_key(keys.drop_last());
        if keys.last() > rest {
            keys.last()
        } else {
            rest
        }
    }
}

/// The largest of the distance keys, zero with no keys: the selection at
/// the heart of the maximum-pairwise-distance sweep.
pub fn max_key(keys: &Vec<u64>) -> (m: u64)
    ensures
        m == spec_max_key(keys@),
        forall|j: int| 0 <= j < keys@.len() ==> #[trigger] keys@[j] <= m,
        m == 0 || keys@.contains(m),
{
    let mut m: u64 = 0;
    let mut i: usize = 0;
    while i < keys.len()
        invariant
            i <= keys@.len(),
            m == spec_max_key(keys@.subrange(0, i as int)),
            forall|j: int| 0 <= j < i ==> #[trigger] keys@[j] <= m,
            m == 0 || keys@.subrange(0, i as int).contains(m),
        decreases keys@.len() - i,
    {
        let k = keys[i];
        proof {
            let pre = keys@.subrange(0, i as int);
            let prefix = keys@.subrange(0, i + 1);
            assert(prefix.drop_last() =~= pre);
            assert(prefix.last() == k);
            if m != 0 && k <= m {
                let w = choose|w: int| 0 <= w < pre.len() && pre[w] == m;
                assert(prefix[w] == m);
            }
            if k > m {
                assert(prefix[i as int] == k);
            }
        }
        if k > m {
            m = k;
        }
        i = i + 1;
    }
    proof {
        assert(keys@.subrange(0, keys@.len() as int) =~= keys@);
    }
    m
}

} // verus!
