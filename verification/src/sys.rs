//! Trusted access to machine facts: the processor count and a run-specific
//! random seed. Everything here only produces plain values; the resampling
//! logic that consumes them is verified for every value they could take.

use vstd::prelude::*;
use std::hash::{BuildHasher, Hasher};

verus! {

/// Relies on `num_cpus::get`: the number of logical processors available to
/// the current process, documented to be at least 1.
#[verifier::external_body]
pub(crate) fn available_workers() -> (r: usize)
    ensures
        r >= 1,
{
    num_cpus::get()
}

/// Relies on `std::collections::hash_map::RandomState::new`: a hasher
/// factory whose keys are freshly drawn, so that distinct runs get distinct
/// seeds. Nothing is promised of the value.
#[verifier::external_body]
fn fresh_random_state() -> std::collections::hash_map::RandomState {
    std::collections::hash_map::RandomState::new()
}

/// Relies on `RandomState::build_hasher`: a hasher keyed by the factory's
/// random keys. Nothing is promised of its state.
#[verifier::external_body]
fn hasher_of(
    s: &std::collections::hash_map::RandomState,
) -> std::collections::hash_map::DefaultHasher {
    s.build_hasher()
}

/// A 64-bit seed that differs from run to run: the digest of a freshly keyed
/// hasher. The resampling engine is verified for every seed value.
pub(crate) fn random_seed() -> u64 {
    let state = fresh_random_state();
    let hasher = hasher_of(&state);
    hasher.finish()
}

} // verus!
