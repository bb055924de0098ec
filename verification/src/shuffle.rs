//! Random reordering of the batch indices.
//!
//! The generator draws come from `rand` through a trusted binding; the
//! reordering itself is verified: the result holds exactly the elements of
//! the input, as a multiset.

use vstd::prelude::*;
use vstd::multiset::Multiset;
use vstd::seq_lib::{to_multiset_build, to_multiset_contains, to_multiset_remove};

use crate::backend;

verus! {

/// Returns the elements of `v` in an order drawn from `rng`: repeatedly
/// removes an element at a random position and appends it to the result.
/// Whatever the generator draws, the result is a permutation of the input.
pub fn shuffled(v: Vec<usize>, rng: &mut rand::rngs::StdRng) -> (r: Vec<usize>)
    ensures
        r@.to_multiset() == v@.to_multiset(),
        r@.len() == v@.len(),
{
    let mut rest = v;
    let mut out: Vec<usize> = Vec::new();
    let ghost total = rest@.to_multiset();
    proof {
        broadcast use vstd::multiset::group_multiset_axioms;

        assert forall|y: usize|
            out@.to_multiset().add(rest@.to_multiset()).count(y) == total.count(y)
        by {
            to_multiset_contains(out@, y);
            assert(!out@.contains(y));
        }
        assert(out@.to_multiset().add(rest@.to_multiset()) =~= total);
    }
    while rest.len() > 0
        invariant
            out@.to_multiset().add(rest@.to_multiset()) == total,
            out@.len() + rest@.len() == v@.len(),
            total == v@.to_multiset(),
        decreases rest@.len(),
    {
        let j = backend::rand_below(rng, rest.len());
        let ghost before = rest@;
        let ghost out_before = out@;
        let x = rest.remove(j);
        out.push(x);
        proof {
            broadcast use vstd::multiset::group_multiset_axioms;

            to_multiset_remove(before, j as int);
            to_multiset_build(out_before, x);
            to_multiset_contains(before, x);
            assert(before.contains(x));
            assert forall|y: usize|
                out@.to_multiset().add(rest@.to_multiset()).count(y) == total.count(y)
            by {
                assert(out_before.to_multiset().add(before.to_multiset()).count(y)
                    == total.count(y));
            }
            assert(out@.to_multiset().add(rest@.to_multiset()) =~= total);
        }
    }
    proof {
        broadcast use vstd::multiset::group_multiset_axioms;

        assert forall|y: usize| out@.to_multiset().count(y) == total.count(y) by {
            to_multiset_contains(rest@, y);
            assert(!rest@.contains(y));
        }
        assert(out@.to_multiset() =~= total);
    }
    out
}

} // verus!
