//! Dimension classification: maps decoded image dimensions to target
//! dimensions by fixed thresholds, evaluated in a fixed order.

use vstd::prelude::*;

verus! {

/// Target dimensions for an image of the given size.
///
/// Evaluated in this order: if either dimension exceeds 300 the target is
/// 300 by 300; else if both are at most 200 the dimensions are kept
/// unchanged; else (at least one dimension lies in 201..=300) the target is
/// 200 by 200. The two shrinking branches yield a fixed square regardless
/// of aspect ratio; only the identity branch keeps a non-square shape.
pub open spec fn spec_classify(width: u32, height: u32) -> (u32, u32) {
    if width > 300 || height > 300 {
        (300u32, 300u32)
    } else if width <= 200 && height <= 200 {
        (width, height)
    } else {
        (200u32, 200u32)
    }
}

/// Computes the target dimensions for a `width` by `height` image.
pub fn classify(width: u32, height: u32) -> (target: (u32, u32))
    ensures
        target == spec_classify(width, height),
        width > 300 || height > 300 ==> target == (300u32, 300u32),
        width <= 200 && height <= 200 ==> target == (width, height),
        width <= 300 && height <= 300 && (width > 200 || height > 200) ==> target == (
            200u32,
            200u32,
        ),
{
    if width > 300 || height > 300 {
        (300, 300)
    } else if width <= 200 && height <= 200 {
        (width, height)
    } else {
        (200, 200)
    }
}

} // verus!
