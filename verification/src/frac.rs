//! Exact rational values.
//!
//! Texture coordinates and transform entries are ratios of pixel counts
//! (for example `tile_width / atlas_width`). The renderer keeps them as exact
//! numerator/denominator pairs; the unverified layer divides them out to
//! floating point only at the GPU boundary.

use vstd::prelude::*;

verus! {

/// An exact fraction `num / den` with a positive denominator.
#[derive(Clone, Copy, Debug, PartialEq, Eq, Structural)]
pub struct Frac {
    pub num: i64,
    pub den: i64,
}

impl Frac {
    /// A fraction is well formed when its denominator is positive.
    pub open spec fn wf(self) -> bool {
        self.den >= 1
    }
}

} // verus!
