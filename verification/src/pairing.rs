//! Pairing of mip levels and of their textures, done by `itertools`.
//! Nothing in this file is proved: each contract here is taken from that
//! crate's source.

use vstd::prelude::*;
use itertools::Itertools;
use crate::bindings::Resource;

verus! {

/// Calls `Itertools::tuple_windows` for pairs on the items of `levels`.
/// The windows are the pairs of neighbours in order, one fewer than the
/// items, and none where there are fewer than two items.
#[verifier::external_body]
pub(crate) fn adjacent_pairs(levels: Vec<u32>) -> (pairs: Vec<(u32, u32)>)
    ensures
        levels@.len() == 0 ==> pairs@.len() == 0,
        levels@.len() > 0 ==> pairs@.len() == levels@.len() - 1,
        forall|i: int|
            0 <= i < pairs@.len() ==> #[trigger] pairs@[i] == (levels@[i], levels@[i + 1]),
{
    levels.into_iter().tuple_windows::<(_, _)>().collect()
}

/// Calls `Itertools::zip_eq` on two lists of one length, which it walks in
/// lock step: the pairs of items at equal positions, in order. On lists of
/// different lengths `zip_eq` panics, so they are not admitted.
#[verifier::external_body]
pub(crate) fn zip_equal(first: Vec<Resource>, second: Vec<Resource>) -> (pairs: Vec<
    (Resource, Resource),
>)
    requires
        first@.len() == second@.len(),
    ensures
        pairs@.len() == first@.len(),
        forall|i: int| 0 <= i < pairs@.len() ==> #[trigger] pairs@[i] == (first@[i], second@[i]),
{
    first.into_iter().zip_eq(second).collect()
}

} // verus!
