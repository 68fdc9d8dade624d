//! Thin trusted wrappers around the `rand` crate.
//!
//! Randomness is the only nondeterministic input of the library, so every
//! draw is funneled through one of these functions, and each verified caller
//! states what holds of every possible outcome.

use vstd::prelude::*;
use rand::Rng;

verus! {

/// Relies on `rand::random`: one uniform draw over all of `u8`.
/// Nothing can be promised of the value beyond its type.
#[verifier::external_body]
pub(crate) fn random_u8() -> u8 {
    rand::random::<u8>()
}

/// Relies on `rand::random`: one uniform draw over `bool`.
#[verifier::external_body]
pub(crate) fn random_bool() -> bool {
    rand::random::<bool>()
}

/// Relies on `rand::Rng::gen_range` on `lo..=hi` (via `rand::thread_rng`):
/// it panics only on an empty range, and returns a value of the range.
#[verifier::external_body]
pub(crate) fn random_u8_in(lo: u8, hi: u8) -> (r: u8)
    requires
        lo <= hi,
    ensures
        lo <= r <= hi,
{
    rand::thread_rng().gen_range(lo..=hi)
}

/// Relies on `rand::Rng::gen_range` on `lo..=hi` (via `rand::thread_rng`):
/// it panics only on an empty range, and returns a value of the range.
#[verifier::external_body]
pub(crate) fn random_i8_in(lo: i8, hi: i8) -> (r: i8)
    requires
        lo <= hi,
    ensures
        lo <= r <= hi,
{
    rand::thread_rng().gen_range(lo..=hi)
}

} // verus!
