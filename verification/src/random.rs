//! Chance, as the `rand` crate deals it.

use rand::seq::SliceRandom;
use vstd::prelude::*;

verus! {

/// The handle of `rand`'s generator of the current thread.
#[verifier::external_type_specification]
#[verifier::external_body]
pub struct ExThreadRng(rand::rngs::ThreadRng);

/// `rand::thread_rng`: hands out the generator of the current thread. Nothing
/// is claimed of it. (It seeds itself from the operating system at its first
/// use in a thread, and panics there if the system has no entropy to give.)
pub assume_specification[ rand::thread_rng ]() -> (rng: rand::rngs::ThreadRng)
;

/// Draws one of `candidates` by `SliceRandom::choose` of `rand`.
///
/// Taken on trust: nothing is drawn from an empty list, and what is drawn
/// from another is one of its items. Which one is left open, so two draws
/// from one list may differ.
#[verifier::external_body]
pub(crate) fn choose_index(candidates: &Vec<usize>, rng: &mut rand::rngs::ThreadRng) -> (drawn:
    Option<usize>)
    ensures
        drawn is None <==> candidates@.len() == 0,
        drawn matches Some(i) ==> candidates@.contains(i),
{
    candidates.choose(rng).copied()
}

} // verus!
