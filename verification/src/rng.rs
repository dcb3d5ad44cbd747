//! The process-wide random source, behind two trusted wrappers. Everything
//! randomized in the core (queue order, button order, target layout) draws
//! from these and states only what holds of every outcome.

use vstd::prelude::*;

verus! {

/// Relies on macroquad::rand::gen_range (quad_rand): it returns
/// `low + (high - low) * u` for a pseudo-random `u = k / 2^32`, `k` below
/// `2^32`, computed in f64 and converted with a truncation toward zero.
/// The bounds are what makes the range claim true of that arithmetic:
/// with magnitudes at most a million the product `(high - low) * k` stays
/// below 2^53 and the final sum needs at most 52 significand bits, so the
/// f64 value is exact and strictly below `high`; and with `high` positive,
/// truncating toward zero can only move the value down or toward zero,
/// never up onto `high`. (Outside these bounds the claim fails: a rounded
/// sum can land on `high`, and for a negative `high` the truncation itself
/// can reach it.)
#[verifier::external_body]
pub(crate) fn gen_range_i64(low: i64, high: i64) -> (r: i64)
    requires
        -1_000_000 <= low,
        low < high,
        0 < high <= 1_000_000,
    ensures
        low <= r < high,
{
    macroquad::rand::gen_range(low, high)
}

/// Relies on macroquad::rand::ChooseRandom::shuffle (quad_rand): an
/// in-place shuffling pass whose only writes are swaps of two elements
/// (each index in turn with a random strictly lower one), so the result
/// holds exactly the elements it started with.
#[verifier::external_body]
pub(crate) fn shuffle_u8(v: &mut Vec<u8>)
    ensures
        final(v)@.len() == old(v)@.len(),
        final(v)@.to_multiset() == old(v)@.to_multiset(),
{
    macroquad::rand::ChooseRandom::shuffle(v.as_mut_slice())
}

/// What a shuffle preserves beyond the multiset itself: the set of elements,
/// and freedom from duplicates.
pub(crate) proof fn lemma_shuffled(pre: Seq<u8>, post: Seq<u8>)
    requires
        post.to_multiset() == pre.to_multiset(),
    ensures
        forall|x: u8| post.contains(x) <==> pre.contains(x),
        pre.no_duplicates() ==> post.no_duplicates(),
{
    broadcast use vstd::seq_lib::group_to_multiset_ensures;

    assert forall|x: u8| post.contains(x) <==> pre.contains(x) by {
        assert(post.contains(x) <==> post.to_multiset().count(x) > 0);
        assert(pre.contains(x) <==> pre.to_multiset().count(x) > 0);
    }
    if pre.no_duplicates() {
        pre.lemma_multiset_has_no_duplicates();
        post.lemma_multiset_has_no_duplicates_conv();
    }
}

} // verus!
