//! The library's source of chance.

use vstd::prelude::*;

verus! {

/// Draws an index below `bound` with `rand::thread_rng().gen_range(0..bound)`.
/// Believed of that call, and not proved: what it returns lies in the range.
/// Nothing is said about which index comes out, so two calls need not agree.
/// The empty range, on which the call panics, is ruled out. The generator is
/// the thread's own and seeds itself from the operating system; on a system
/// that gives it no seed the call panics, which no contract can rule out.
#[verifier::external_body]
pub(crate) fn random_index(bound: usize) -> (index: usize)
    requires
        bound > 0,
    ensures
        index < bound,
{
    rand::Rng::gen_range(&mut rand::thread_rng(), 0..bound)
}

/// Draws a number with `rand::random::<u32>()`, which uses the same
/// generator. Any `u32` may come out, so nothing is claimed of it.
#[verifier::external_body]
pub(crate) fn random_number() -> u32 {
    rand::random::<u32>()
}

} // verus!
