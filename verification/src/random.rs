//! The random number generator of `bracket_lib`, and the draws that the
//! library makes from it.

use vstd::prelude::*;
use bracket_lib::prelude::RandomNumberGenerator;

verus! {

/// `bracket_lib`'s random number generator, carried through opaquely.
#[verifier::external_type_specification]
#[verifier::external_body]
pub struct ExRandomNumberGenerator(RandomNumberGenerator);

/// Calls `RandomNumberGenerator::range(min, max)`, which draws from the
/// half-open range `min..max` through `rand`'s `gen_range` (which panics on an
/// empty range). Which value is drawn depends on the generator's state: only the
/// bounds are claimed.
#[verifier::external_body]
pub(crate) fn rng_range(rng: &mut RandomNumberGenerator, min: i32, max: i32) -> (r: i32)
    requires
        min < max,
    ensures
        min <= r < max,
{
    rng.range(min, max)
}

/// Calls `RandomNumberGenerator::random_slice_index`: `None` for an empty slice,
/// otherwise some index of the slice (drawn with `roll_dice(1, len)`, which
/// converts the length to `i32` and adds one, hence the bound on the length).
/// Which index is drawn is not claimed.
#[verifier::external_body]
pub(crate) fn random_slice_index<T>(rng: &mut RandomNumberGenerator, slice: &[T]) -> (r: Option<usize>)
    requires
        slice@.len() < i32::MAX,
    ensures
        r is Some <==> slice@.len() > 0,
        r matches Some(i) ==> i < slice@.len(),
{
    rng.random_slice_index(slice)
}

/// Calls `RandomNumberGenerator::random_slice_entry`: `None` for an empty slice,
/// otherwise a reference to some element of it (drawn as in
/// `random_slice_index`). Which element is drawn is not claimed.
#[verifier::external_body]
pub(crate) fn random_slice_entry<'a, T>(rng: &mut RandomNumberGenerator, slice: &'a [T]) -> (r: Option<&'a T>)
    requires
        slice@.len() < i32::MAX,
    ensures
        r is Some <==> slice@.len() > 0,
        r matches Some(e) ==> slice@.contains(*e),
{
    rng.random_slice_entry(slice)
}

} // verus!
