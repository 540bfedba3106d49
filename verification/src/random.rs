use vstd::prelude::*;
use crate::figure::FigureKind;
use rand::rngs::ThreadRng;
use rand::seq::IndexedRandom;

verus! {

/// `rand::rngs::ThreadRng`, the handle to a thread's random number generator. Nothing is
/// known of its state.
#[verifier::external_type_specification]
#[verifier::external_body]
pub struct ExThreadRng(ThreadRng);

/// `rand::rng`: a handle to the calling thread's random number generator. Nothing is claimed
/// of it.
#[verifier::external_body]
pub(crate) fn thread_rng() -> (rng: ThreadRng) {
    rand::rng()
}

/// `IndexedRandom::choose` on a list that is not empty: one of its elements. Which one is
/// left open.
#[verifier::external_body]
pub(crate) fn pick_kind(rng: &mut ThreadRng, kinds: &Vec<FigureKind>) -> (kind: FigureKind)
    requires
        kinds@.len() > 0,
    ensures
        kinds@.contains(kind),
{
    *kinds.choose(rng).unwrap()
}

} // verus!
