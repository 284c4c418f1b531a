//! The scanline animation state machine.
//!
//! A single scalar `y` sweeps a brightness band up the screen. It advances
//! once per completed draw call — per call, not per elapsed second — by 0.22
//! and wraps in a sawtooth: past 1.2 it falls back by 1.4, so it cycles
//! through a span of 1.4 about every six draws. The state is kept in exact
//! hundredths (22, 120 and 140 below); the unverified layer divides by 100
//! when it binds the value as the shader uniform.

use vstd::prelude::*;

verus! {

/// The per-draw advance, in hundredths: 0.22.
pub const SCANLINE_STEP: i32 = 22;

/// The wrap threshold, in hundredths: a little past the top of the screen.
pub const SCANLINE_LIMIT: i32 = 120;

/// The wrap span, in hundredths: wrapping lands a little below the screen.
pub const SCANLINE_SPAN: i32 = 140;

/// Where the scanline may stand: within the screen's span plus the small
/// margins the sawtooth overshoots on either side.
pub open spec fn scanline_in_range(y: int) -> bool {
    -20 <= y <= 120
}

/// One transition of the sawtooth: step up, wrap past the threshold.
pub open spec fn spec_advance(y: int) -> int {
    if y + SCANLINE_STEP > SCANLINE_LIMIT {
        y + SCANLINE_STEP - SCANLINE_SPAN
    } else {
        y + SCANLINE_STEP
    }
}

/// Advance the scanline by one draw call.
pub fn advance_scanline(y: i32) -> (r: i32)
    requires
        scanline_in_range(y as int),
    ensures
        r == spec_advance(y as int),
        scanline_in_range(r as int),
{
    let stepped: i32 = y + SCANLINE_STEP;
    if stepped > SCANLINE_LIMIT {
        stepped - SCANLINE_SPAN
    } else {
        stepped
    }
}

/// The scanline never leaves its range: starting anywhere in range, one
/// advance lands in range again.
pub proof fn lemma_advance_preserves_range(y: int)
    requires
        scanline_in_range(y),
    ensures
        scanline_in_range(spec_advance(y)),
{
}

/// The scanline after `n` completed draw calls, from its initial value 0.
pub open spec fn spec_advance_n(n: nat) -> int
    decreases n,
{
    if n == 0 {
        0
    } else {
        spec_advance(spec_advance_n((n - 1) as nat))
    }
}

/// Every reachable scanline state is in range: after any number of draws
/// from the initial value 0, `-0.2 <= y <= 1.2` holds.
pub proof fn lemma_scanline_always_in_range(n: nat)
    ensures
        scanline_in_range(spec_advance_n(n)),
    decreases n,
{
    if n > 0 {
        lemma_scanline_always_in_range((n - 1) as nat);
        lemma_advance_preserves_range(spec_advance_n((n - 1) as nat));
    }
}

} // verus!
