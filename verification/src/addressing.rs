//! Tile addressing: mapping a tile id to its rectangle inside the atlas.
//!
//! Tiles are laid out row-major in the atlas. The column count is
//! `atlas_width / tile_width` (integer division); a tile id selects
//! `column = id % columns`, `row = id / columns`. Ids at or beyond the
//! atlas's actual tile count are not rejected: they wrap through the modulo
//! and division to a valid-but-unintended tile, which is documented
//! behaviour and must not be clamped away.
//!
//! Texture data is stored with a bottom-left origin, so the top edge of a
//! tile has the larger `v` coordinate: `v_top = 1 - (tile_h/atlas_h)*row`.
//! All coordinates are exact fractions over the atlas dimensions.

use vstd::prelude::*;

use crate::atlas::AtlasDimensions;
use crate::frac::Frac;

verus! {

use vstd::arithmetic::div_mod::{
    lemma_hoist_over_denominator, lemma_mod_multiples_vanish, lemma_div_non_zero,
};

/// The column a tile id addresses: `id % columns`.
pub open spec fn spec_column(tile_id: int, dims: AtlasDimensions) -> int {
    tile_id % dims.spec_columns()
}

/// The row a tile id addresses: `id / columns`.
pub open spec fn spec_row(tile_id: int, dims: AtlasDimensions) -> int {
    tile_id / dims.spec_columns()
}

/// The normalized atlas rectangle of one tile, as exact fractions over the
/// atlas pixel dimensions, plus the column and row it was derived from.
/// `u` grows rightward; `v_top > v_bottom` because the texture origin is
/// bottom-left. On wrapped-around rows `v` may fall below zero; that is the
/// documented wraparound, not an error.
#[derive(Clone, Copy, Debug, PartialEq, Eq, Structural)]
pub struct AtlasRect {
    pub column: u32,
    pub row: u32,
    pub u0: Frac,
    pub u1: Frac,
    pub v_top: Frac,
    pub v_bottom: Frac,
}

/// Compute the atlas rectangle addressed by `tile_id`.
pub fn rect_for(tile_id: u32, dims: &AtlasDimensions) -> (r: AtlasRect)
    requires
        dims.wf(),
    ensures
        r.column == spec_column(tile_id as int, *dims),
        r.row == spec_row(tile_id as int, *dims),
        r.u0.num == dims.tile_w_u * spec_column(tile_id as int, *dims),
        r.u1.num == r.u0.num + dims.tile_w_u,
        r.u0.den == dims.atlas_w_u && r.u1.den == dims.atlas_w_u,
        r.v_top.num == dims.atlas_h_u - dims.tile_h_u * spec_row(tile_id as int, *dims),
        r.v_bottom.num == r.v_top.num - dims.tile_h_u,
        r.v_top.den == dims.atlas_h_u && r.v_bottom.den == dims.atlas_h_u,
        r.u0.wf() && r.u1.wf() && r.v_top.wf() && r.v_bottom.wf(),
{
    proof {
        lemma_div_non_zero(dims.atlas_w_u as int, dims.tile_w_u as int);
    }
    let columns: u32 = (dims.atlas_w_u / dims.tile_w_u) as u32;
    let column: u32 = tile_id % columns;
    let row: u32 = tile_id / columns;

    proof {
        assert(dims.tile_w_u as int * column as int <= 0xffff * 0xffff_ffff) by (nonlinear_arith)
            requires
                dims.tile_w_u <= 0xffff,
                column <= 0xffff_ffff,
                0 <= dims.tile_w_u,
                0 <= column,
        ;
        assert(0 <= dims.tile_h_u as int * row as int <= 0xffff * 0xffff_ffff) by (nonlinear_arith)
            requires
                dims.tile_h_u <= 0xffff,
                row <= 0xffff_ffff,
                0 <= dims.tile_h_u,
                0 <= row,
        ;
    }
    let u0_num: i64 = (dims.tile_w_u as i64) * (column as i64);
    let v_top_num: i64 = (dims.atlas_h_u as i64) - (dims.tile_h_u as i64) * (row as i64);

    AtlasRect {
        column,
        row,
        u0: Frac { num: u0_num, den: dims.atlas_w_u as i64 },
        u1: Frac { num: u0_num + dims.tile_w_u as i64, den: dims.atlas_w_u as i64 },
        v_top: Frac { num: v_top_num, den: dims.atlas_h_u as i64 },
        v_bottom: Frac { num: v_top_num - dims.tile_h_u as i64, den: dims.atlas_h_u as i64 },
    }
}

/// Wrap consistency of tile addressing: shifting a tile id by a whole number
/// of columns keeps its column and moves its row by exactly that number.
pub proof fn lemma_rect_wrap(dims: AtlasDimensions, tile_id: int, k: int)
    requires
        dims.wf(),
        0 <= tile_id,
        0 <= k,
    ensures
        spec_column(tile_id + k * dims.spec_columns(), dims) == spec_column(tile_id, dims),
        spec_row(tile_id + k * dims.spec_columns(), dims) == spec_row(tile_id, dims) + k,
{
    let c = dims.spec_columns();
    lemma_div_non_zero(dims.atlas_w_u as int, dims.tile_w_u as int);
    lemma_mod_multiples_vanish(k, tile_id, c);
    lemma_hoist_over_denominator(tile_id, k, c as nat);
}

} // verus!
