//! Collecting all minimal elements of a sequence.
//!
//! A single left-to-right pass keeps every element equal to the running
//! minimum: finding a smaller element discards what was collected so far,
//! finding an equal one appends it. The result is every occurrence of the
//! minimum, in order.

use vstd::prelude::*;

verus! {

/// The minimum of a non-empty sequence.
pub open spec fn spec_seq_min(s: Seq<i64>) -> i64
    recommends
        s.len() > 0,
    decreases s.len(),
{
    if s.len() <= 1 {
        s[0]
    } else if s.last() < spec_seq_min(s.drop_last()) {
        s.last()
    } else {
        spec_seq_min(s.drop_last())
    }
}

/// All occurrences of the minimum of `s`, in order (empty for an empty `s`).
pub open spec fn spec_minima(s: Seq<i64>) -> Seq<i64>
    decreases s.len(),
{
    if s.len() == 0 {
        Seq::empty()
    } else if s.len() == 1 {
        seq![s[0]]
    } else if s.last() < spec_seq_min(s.drop_last()) {
        seq![s.last()]
    } else if s.last() == spec_seq_min(s.drop_last()) {
        spec_minima(s.drop_last()).push(s.last())
    } else {
        spec_minima(s.drop_last())
    }
}

/// Collect every element of `v` equal to its minimum, in order.
pub fn partial_min_by(v: &Vec<i64>) -> (r: Vec<i64>)
    ensures
        r@ == spec_minima(v@),
        v@.len() == 0 ==> r@.len() == 0,
        v@.len() > 0 ==> r@.len() > 0 && forall|k: int|
            0 <= k < r@.len() ==> r@[k] == spec_seq_min(v@),
{
    proof {
        lemma_minima_all_min(v@);
    }
    let n = v.len();
    let mut r: Vec<i64> = Vec::new();
    if n == 0 {
        return r;
    }
    let mut min: i64 = v[0];
    r.push(v[0]);
    let mut k: usize = 1;
    while k < n
        invariant
            n == v@.len(),
            1 <= k <= n,
            min == spec_seq_min(v@.take(k as int)),
            r@ == spec_minima(v@.take(k as int)),
        decreases n - k,
    {
        proof {
            assert(v@.take(k + 1).drop_last() =~= v@.take(k as int));
            assert(v@.take(k + 1).last() == v@[k as int]);
        }
        let x = v[k];
        if x < min {
            min = x;
            r = Vec::new();
            r.push(x);
            proof {
                assert(r@ =~= seq![v@[k as int]]);
            }
        } else if x == min {
            r.push(x);
        }
        k = k + 1;
    }
    proof {
        assert(v@.take(n as int) =~= v@);
    }
    r
}

/// Every collected element equals the minimum, and at least one element is
/// collected from a non-empty sequence.
proof fn lemma_minima_all_min(s: Seq<i64>)
    ensures
        s.len() > 0 ==> spec_minima(s).len() > 0 && forall|k: int|
            0 <= k < spec_minima(s).len() ==> spec_minima(s)[k] == spec_seq_min(s),
    decreases s.len(),
{
    if s.len() > 1 {
        lemma_minima_all_min(s.drop_last());
    }
}

} // verus!
