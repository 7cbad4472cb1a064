//! The boundary to the `rand` crate: the source of the values that the fill
//! workloads append.
//!
//! Nothing in this file is proved, and nothing is claimed of the values: a
//! caller has to work for every `i64`.

use rand::rngs::ThreadRng;
use rand::Rng;
use vstd::prelude::*;

verus! {

/// `rand::rngs::ThreadRng`, the handle to the generator of the current
/// thread.
#[verifier::external_type_specification]
#[verifier::external_body]
pub struct ExThreadRng(ThreadRng);

/// Calls `rand::thread_rng`, which hands out the generator of the current
/// thread, seeded by the system. It takes no argument; it can fail only
/// where the system has no entropy to seed it with.
#[verifier::external_body]
pub(crate) fn thread_rng() -> ThreadRng {
    rand::thread_rng()
}

/// Calls `Rng::gen` for an `i64`: the next value of the generator, uniform
/// over the whole range of the type.
#[verifier::external_body]
pub(crate) fn next_i64(rng: &mut ThreadRng) -> i64 {
    rng.gen()
}

} // verus!
