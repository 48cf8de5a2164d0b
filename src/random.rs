//! The randomness a generator draws on, from the `rand` crate.
use vstd::prelude::*;
use rand::Rng;
use rand::seq::SliceRandom;
use rand::rngs::ThreadRng;

verus! {

/// rand's per-thread generator, carried through opaquely.
#[verifier::external_type_specification]
#[verifier::external_body]
pub struct ExThreadRng(ThreadRng);

/// Relies on rand::thread_rng: a handle on the lazily seeded per-thread generator.
/// Nothing is known of the values it will produce.
pub assume_specification[ rand::thread_rng ]() -> ThreadRng;

/// Relies on rand::Rng::gen_range over `0..n`: it panics on an empty range and
/// otherwise returns a value of the range.
#[verifier::external_body]
pub(crate) fn random_index(rng: &mut ThreadRng, n: usize) -> (r: usize)
    requires
        0 < n,
    ensures
        r < n,
{
    rng.gen_range(0..n)
}

/// Relies on rand::seq::SliceRandom::shuffle on a slice: a Fisher-Yates pass of
/// swaps, so the characters are permuted and none is added or lost.
#[verifier::external_body]
pub(crate) fn shuffle_chars(rng: &mut ThreadRng, v: &mut Vec<char>)
    ensures
        final(v)@.to_multiset() == old(v)@.to_multiset(),
{
    v.as_mut_slice().shuffle(rng)
}

/// Relies on std's `FromIterator<&char> for String`: the characters in order.
#[verifier::external_body]
pub(crate) fn collect_string(v: &Vec<char>) -> (r: String)
    ensures
        r@ == v@,
{
    v.iter().collect()
}

} // verus!
