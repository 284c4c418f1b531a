//! Clip-space transforms.
//!
//! The renderer maps tile-grid coordinates to clip space with a 2D affine
//! transform: a diagonal scale and a translation, the matrix
//! `[sx 0 tx; 0 sy ty; 0 0 1]`. Two scaling policies exist. The console
//! policy scales a `width x height` grid to fill the viewport and pins its
//! top-left corner to the viewport's top-left. The sprite policy scales one
//! grid cell to its native pixel size on the framebuffer; its translation is
//! a caller-supplied pixel offset applied by the unverified layer.

use vstd::prelude::*;

use crate::atlas::AtlasDimensions;
use crate::frac::Frac;

verus! {

/// A 2D affine transform `[sx 0 tx; 0 sy ty; 0 0 1]` with exact entries.
#[derive(Clone, Copy, Debug, PartialEq, Eq, Structural)]
pub struct Transform2D {
    pub sx: Frac,
    pub sy: Frac,
    pub tx: Frac,
    pub ty: Frac,
}

impl Transform2D {
    pub open spec fn wf(self) -> bool {
        self.sx.wf() && self.sy.wf() && self.tx.wf() && self.ty.wf()
    }
}

/// The fixed-logical-viewport (console) transform: scale by `2/width` and
/// `2/height`, then translate by `(-1, 1)` so the grid's top-left corner
/// sits at the viewport's top-left corner.
pub fn console_transform(width: u32, height: u32) -> (t: Transform2D)
    requires
        1 <= width,
        1 <= height,
    ensures
        t.sx.num == 2 && t.sx.den == width,
        t.sy.num == 2 && t.sy.den == height,
        t.tx.num == -1 && t.tx.den == 1,
        t.ty.num == 1 && t.ty.den == 1,
        t.wf(),
{
    Transform2D {
        sx: Frac { num: 2, den: width as i64 },
        sy: Frac { num: 2, den: height as i64 },
        tx: Frac { num: -1, den: 1 },
        ty: Frac { num: 1, den: 1 },
    }
}

/// The pixel-accurate (sprite) scale: one grid cell spans one tile's pixel
/// size on the framebuffer, `tile / (frame/2) = 2*tile / frame` per axis.
/// The translation comes from the caller's pixel offset and is filled in by
/// the unverified layer.
pub fn sprite_scale(dims: &AtlasDimensions, frame_w: u32, frame_h: u32) -> (s: (Frac, Frac))
    requires
        1 <= frame_w,
        1 <= frame_h,
    ensures
        s.0.num == 2 * dims.tile_w_u && s.0.den == frame_w,
        s.1.num == 2 * dims.tile_h_u && s.1.den == frame_h,
        s.0.wf() && s.1.wf(),
{
    (
        Frac { num: 2 * dims.tile_w_u as i64, den: frame_w as i64 },
        Frac { num: 2 * dims.tile_h_u as i64, den: frame_h as i64 },
    )
}

} // verus!
