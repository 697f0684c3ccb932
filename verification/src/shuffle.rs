//! Randomness: the one capability the engine takes from outside.

use vstd::prelude::*;
use rand::Rng;
use crate::catalog::CardId;

verus! {

/// Whether `a` holds the ids of `b`, each as often as `b` does, in some
/// order.
pub open spec fn is_reordering(a: Seq<CardId>, b: Seq<CardId>) -> bool {
    a.to_multiset() == b.to_multiset()
}

/// Shuffles `ids` in place with `rand::Rng::shuffle`, on the generator
/// that `rand::thread_rng` hands out.
///
/// Trusted: the outside function only swaps elements of the slice it is
/// given, so what comes back holds the same ids as often as before. Which
/// order comes back is left open.
#[verifier::external_body]
pub(crate) fn shuffle_ids(ids: &mut Vec<CardId>)
    ensures
        is_reordering(final(ids)@, old(ids)@),
{
    rand::thread_rng().shuffle(&mut ids[..]);
}

/// A reordering has the length of what it reorders, and holds nothing that
/// was not there before.
pub proof fn lemma_reordering_keeps_members(a: Seq<CardId>, b: Seq<CardId>)
    requires
        is_reordering(a, b),
    ensures
        a.len() == b.len(),
        forall|i: int| 0 <= i < a.len() ==> b.contains(#[trigger] a[i]),
{
    a.to_multiset_ensures();
    b.to_multiset_ensures();
    assert forall|i: int| 0 <= i < a.len() implies b.contains(#[trigger] a[i]) by {
        assert(a.contains(a[i]));
        assert(a.to_multiset().count(a[i]) > 0);
    }
}

} // verus!
