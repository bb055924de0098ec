//! Evaluation: comparing predicted class indices against true labels.

use vstd::prelude::*;

verus! {

/// How many of the first `n` positions of `a` and `b` hold equal values.
pub open spec fn count_eq_prefix(a: Seq<u32>, b: Seq<u32>, n: int) -> nat
    decreases n,
{
    if n <= 0 {
        0
    } else {
        count_eq_prefix(a, b, n - 1) + (if a[n - 1] == b[n - 1] {
            1nat
        } else {
            0nat
        })
    }
}

/// How many positions of two equally long sequences hold equal values.
pub open spec fn count_eq(a: Seq<u32>, b: Seq<u32>) -> nat
    recommends
        a.len() == b.len(),
{
    count_eq_prefix(a, b, a.len() as int)
}

/// Counts the positions where prediction and label agree: the number of
/// correctly classified examples.
pub fn count_matches(preds: &Vec<u32>, labels: &Vec<u32>) -> (n: usize)
    requires
        preds@.len() == labels@.len(),
    ensures
        n == count_eq(preds@, labels@),
        n <= preds@.len(),
{
    let mut n: usize = 0;
    let mut i: usize = 0;
    while i < preds.len()
        invariant
            0 <= i <= preds@.len(),
            preds@.len() == labels@.len(),
            n == count_eq_prefix(preds@, labels@, i as int),
            n <= i,
        decreases preds@.len() - i,
    {
        if preds[i] == labels[i] {
            n = n + 1;
        }
        i = i + 1;
    }
    n
}

} // verus!
