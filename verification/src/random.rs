//! Random choices, made with `rand`.
use vstd::prelude::*;

verus! {

/// `rand::seq::SliceRandom::choose` on a slice with `rand::thread_rng()`.
/// Its source answers `None` for an empty slice and otherwise a reference
/// to the element at an index that `gen_index` draws below the length.
/// Which element comes is left open: the draw rests on chance.
#[verifier::external_body]
pub(crate) fn pick_one<T>(items: &[T]) -> (r: Option<&T>)
    ensures
        (items@.len() == 0) <==> (r is None),
        r matches Some(x) ==> exists|i: int| 0 <= i < items@.len() && items@[i] == *x,
{
    rand::seq::SliceRandom::choose(items, &mut rand::thread_rng())
}

} // verus!
