//! The thread-local random number generator of the `rand` crate, as far as
//! the library draws from it. Nothing here is proved: the contracts record
//! what is taken on trust from `rand`.

use vstd::prelude::*;
use rand::rngs::ThreadRng;
use rand::Rng;

verus! {

/// `rand::rngs::ThreadRng`, a handle to the generator of the current thread.
/// Its state is not modelled.
#[verifier::external_type_specification]
#[verifier::external_body]
pub struct ExThreadRng(ThreadRng);

/// `rand::thread_rng` hands out the handle to the generator of the current
/// thread, which it seeds from the operating system on first use; it panics
/// where the system gives no entropy. Nothing is claimed of the handle.
pub assume_specification[ rand::thread_rng ]() -> (rng: ThreadRng);

/// Draws the next 64-bit word with `rand::Rng::gen`, which for this type is
/// the generator's `next_u64`. The word is random, so nothing is claimed of
/// it beyond its type, nor of the generator afterwards.
#[verifier::external_body]
pub(crate) fn next_word(rng: &mut ThreadRng) -> (word: u64) {
    rng.gen()
}

} // verus!
