//! Inside/outside classification of voxel cells by ray-crossing parity.
//!
//! A ray cast from a cell centre crosses the closed surface of a solid an odd
//! number of times exactly when the centre lies inside the solid.  Counting
//! the crossings is floating-point geometry; turning the counts into the
//! solver's solid mask is the integer rule below.
use vstd::prelude::*;

verus! {

/// A cell whose ray crossed the surface `crossings` times lies inside the solid.
pub open spec fn inside_by_parity(crossings: u32) -> bool {
    crossings % 2 == 1
}

/// Solid mask from the per-cell crossing counts: a cell is solid exactly when
/// its count is odd.  The mask has one entry per count, in the same order.
pub fn parity_mask(crossings: &Vec<u32>) -> (mask: Vec<bool>)
    ensures
        mask.len() == crossings.len(),
        forall|i: int| 0 <= i < crossings.len() ==> mask[i] == inside_by_parity(#[trigger] crossings[i]),
{
    let mut mask: Vec<bool> = Vec::with_capacity(crossings.len());
    let mut i: usize = 0;
    while i < crossings.len()
        invariant
            i <= crossings.len(),
            mask.len() == i,
            forall|j: int| 0 <= j < i ==> mask[j] == inside_by_parity(#[trigger] crossings[j]),
        decreases crossings.len() - i,
    {
        mask.push(crossings[i] % 2 == 1);
        i += 1;
    }
    mask
}

} // verus!
