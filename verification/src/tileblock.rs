//! The sprite-style renderer: a tile grid drawn from fully baked quads.
//!
//! Every grid cell's quad carries the final atlas rectangle of its tile id,
//! computed on the CPU with `addressing::rect_for`. A content change means
//! regenerating and re-uploading the whole vertex buffer — O(tiles) work per
//! update, the right trade-off when content changes rarely relative to the
//! draw rate or the grid is small.

use vstd::prelude::*;

use crate::addressing::{rect_for, spec_column, spec_row};
use crate::atlas::{Atlas, AtlasDimensions};
use crate::frac::Frac;
use crate::mesh::{build_quad_indices, spec_tile_indices, Vertex};
use crate::transform::sprite_scale;

verus! {

use vstd::arithmetic::div_mod::{
    lemma_div_multiples_vanish_fancy, lemma_mod_multiples_vanish,
    lemma_mod_division_less_than_divisor, lemma_div_pos_is_pos, lemma_div_non_zero,
};
use vstd::slice::slice_to_vec;

/// One corner of the baked quad of the grid cell at `(tx, ty)` showing
/// `tile_id`: positions in grid units with Y negated, and the corner of the
/// tile's atlas rectangle, `u = (tile_w/atlas_w) * (column + addx)`,
/// `v = 1 - (tile_h/atlas_h) * (row + addy)`.
pub open spec fn tile_corner_vertex(
    dims: AtlasDimensions,
    tx: int,
    ty: int,
    tile_id: int,
    addx: int,
    addy: int,
) -> Vertex {
    Vertex {
        pos_x: (tx + addx) as i64,
        pos_y: (0 - ty - addy) as i64,
        tex_u: Frac {
            num: (dims.tile_w_u * (spec_column(tile_id, dims) + addx)) as i64,
            den: dims.atlas_w_u as i64,
        },
        tex_v: Frac {
            num: (dims.atlas_h_u - dims.tile_h_u * (spec_row(tile_id, dims) + addy)) as i64,
            den: dims.atlas_h_u as i64,
        },
    }
}

/// The four unique vertices of one baked cell, in the order TL, BL, TR, BR.
pub open spec fn spec_tile_quad(dims: AtlasDimensions, tx: int, ty: int, tile_id: int) -> Seq<
    Vertex,
> {
    seq![
        tile_corner_vertex(dims, tx, ty, tile_id, 0, 1),
        tile_corner_vertex(dims, tx, ty, tile_id, 0, 0),
        tile_corner_vertex(dims, tx, ty, tile_id, 1, 1),
        tile_corner_vertex(dims, tx, ty, tile_id, 1, 0),
    ]
}

/// The per-draw values of the sprite policy: the scale that gives one grid
/// cell its native pixel size. The translation is the caller's pixel offset
/// and is composed in by the unverified layer.
#[derive(Clone, Copy, Debug, PartialEq, Eq, Structural)]
pub struct TileDrawParams {
    pub scale_x: Frac,
    pub scale_y: Frac,
}

/// Why constructing a tile block failed. Buffer creation happens in the
/// unverified layer, which reports its failures with the matching variant;
/// all of them are fatal and never retried.
#[derive(Clone, Copy, Debug, PartialEq, Eq, Structural)]
pub enum TileBlockErr {
    WrongSizeBlock,
    VBOCreation,
    IBOCreation,
}

/// A `width x height` grid of 8-bit tile ids rendered from baked quads.
pub struct TileBlock {
    pub atlas: AtlasDimensions,
    pub width: u32,
    pub height: u32,
    pub block: Vec<u8>,
}

impl TileBlock {
    /// The grid's invariant: a well-formed atlas and content of exactly
    /// `width * height` ids, small enough for 32-bit tile indices.
    pub open spec fn wf(self) -> bool {
        &&& self.atlas.wf()
        &&& self.block@.len() == (self.width as int) * (self.height as int)
        &&& (self.width as int) * (self.height as int) <= u32::MAX as int
    }

    /// The four baked vertices of the grid cell at `position` showing
    /// `tile_id`. Ids beyond the atlas's tile count wrap through the
    /// addressing arithmetic; they are not clamped.
    pub fn generate_tile_triangles(&self, position: (u32, u32), tile_id: u32) -> (r: [Vertex; 4])
        requires
            self.atlas.wf(),
        ensures
            forall|j: int| 0 <= j < 4
                ==> r@[j] == spec_tile_quad(
                    self.atlas,
                    position.0 as int,
                    position.1 as int,
                    tile_id as int,
                )[j],
    {
        let rect = rect_for(tile_id, &self.atlas);
        proof {
            let dims = self.atlas;
            let col = spec_column(tile_id as int, dims);
            let row = spec_row(tile_id as int, dims);
            lemma_div_non_zero(dims.atlas_w_u as int, dims.tile_w_u as int);
            lemma_mod_division_less_than_divisor(tile_id as int, dims.spec_columns());
            lemma_div_pos_is_pos(tile_id as int, dims.spec_columns());
            assert(dims.tile_w_u * (col + 1) == dims.tile_w_u * col + dims.tile_w_u)
                by (nonlinear_arith);
            assert(dims.tile_h_u * (row + 1) == dims.tile_h_u * row + dims.tile_h_u)
                by (nonlinear_arith);
            assert(dims.tile_w_u * (col + 0) == dims.tile_w_u * col);
            assert(dims.tile_h_u * (row + 0) == dims.tile_h_u * row);
        }
        let x0: i64 = position.0 as i64;
        let x1: i64 = position.0 as i64 + 1;
        let y0: i64 = -(position.1 as i64);
        let y1: i64 = -(position.1 as i64) - 1;
        [
            Vertex { pos_x: x0, pos_y: y1, tex_u: rect.u0, tex_v: rect.v_bottom },
            Vertex { pos_x: x0, pos_y: y0, tex_u: rect.u0, tex_v: rect.v_top },
            Vertex { pos_x: x1, pos_y: y1, tex_u: rect.u1, tex_v: rect.v_bottom },
            Vertex { pos_x: x1, pos_y: y0, tex_u: rect.u1, tex_v: rect.v_top },
        ]
    }

    /// Build a tile block over `atlas` from optional initial content.
    /// Supplied content must hold exactly one id per grid cell; otherwise
    /// the content defaults to all-zero tile ids.
    pub fn new(atlas: &Atlas, width: u32, height: u32, block: Option<&[u8]>) -> (r: Result<
        TileBlock,
        TileBlockErr,
    >)
        requires
            atlas.dimensions.wf(),
            (width as int) * (height as int) <= u32::MAX as int,
        ensures
            (match block {
                Some(b) => r is Ok <==> b@.len() == (width as int) * (height as int),
                None => r is Ok,
            }),
            r is Err ==> r->Err_0 == TileBlockErr::WrongSizeBlock,
            r matches Ok(t) ==> {
                &&& t.wf()
                &&& t.atlas == atlas.dimensions
                &&& t.width == width
                &&& t.height == height
                &&& t.block@.len() == (width as int) * (height as int)
                &&& (match block {
                    Some(b) => t.block@ == b@,
                    None => forall|i: int| 0 <= i < t.block@.len() ==> t.block@[i] == 0u8,
                })
            },
    {
        let n: usize = (width * height) as usize;
        let final_block: Vec<u8> = match block {
            Some(b) => {
                if b.len() != n {
                    return Err(TileBlockErr::WrongSizeBlock);
                }
                slice_to_vec(b)
            },
            None => {
                let mut zeros: Vec<u8> = Vec::new();
                let mut i: usize = 0;
                while i < n
                    invariant
                        i <= n,
                        zeros@.len() == i,
                        forall|j: int| 0 <= j < i ==> zeros@[j] == 0u8,
                    decreases n - i,
                {
                    zeros.push(0);
                    i = i + 1;
                }
                zeros
            },
        };
        Ok(TileBlock { atlas: atlas.dimensions, width, height, block: final_block })
    }

    /// The whole vertex buffer for the current content: four baked vertices
    /// per tile, row-major over the grid. Called once at construction and
    /// again on every content change — the full-rebuild cost of this
    /// strategy.
    pub fn build_vertices(&self) -> (r: Vec<Vertex>)
        requires
            self.wf(),
        ensures
            r@.len() == 4 * ((self.width as int) * (self.height as int)),
            forall|j: int| 0 <= j < r@.len()
                ==> r@[j] == spec_tile_quad(
                    self.atlas,
                    (j / 4) % (self.width as int),
                    (j / 4) / (self.width as int),
                    self.block@[j / 4] as int,
                )[j % 4],
    {
        let w: u32 = self.width;
        let n: usize = (self.width * self.height) as usize;
        let mut verts: Vec<Vertex> = Vec::new();
        let mut i: usize = 0;
        while i < n
            invariant
                self.wf(),
                w == self.width,
                n == (self.width as int) * (self.height as int),
                n <= u32::MAX as int,
                i <= n,
                verts@.len() == 4 * i,
                forall|j: int| 0 <= j < 4 * i
                    ==> verts@[j] == spec_tile_quad(
                        self.atlas,
                        (j / 4) % (self.width as int),
                        (j / 4) / (self.width as int),
                        self.block@[j / 4] as int,
                    )[j % 4],
            decreases n - i,
        {
            proof {
                if w == 0 {
                    assert((self.width as int) * (self.height as int) == 0);
                }
            }
            let iu: u32 = i as u32;
            let tx: u32 = iu % w;
            let ty: u32 = iu / w;
            let tile_id: u32 = self.block[i] as u32;
            let quad = self.generate_tile_triangles((tx, ty), tile_id);
            verts.push(quad[0]);
            verts.push(quad[1]);
            verts.push(quad[2]);
            verts.push(quad[3]);
            proof {
                lemma_div_multiples_vanish_fancy(i as int, 0, 4);
                lemma_div_multiples_vanish_fancy(i as int, 1, 4);
                lemma_div_multiples_vanish_fancy(i as int, 2, 4);
                lemma_div_multiples_vanish_fancy(i as int, 3, 4);
                lemma_mod_multiples_vanish(i as int, 0, 4);
                lemma_mod_multiples_vanish(i as int, 1, 4);
                lemma_mod_multiples_vanish(i as int, 2, 4);
                lemma_mod_multiples_vanish(i as int, 3, 4);
            }
            i = i + 1;
        }
        verts
    }

    /// The static index buffer: six entries per tile, the two-triangle
    /// pattern shared by both strategies.
    pub fn build_indices(&self) -> (r: Vec<u16>)
        requires
            self.wf(),
        ensures
            r@.len() == 6 * ((self.width as int) * (self.height as int)),
            forall|j: int| 0 <= j < r@.len() ==> r@[j] == spec_tile_indices(j / 6)[j % 6],
    {
        build_quad_indices(self.width * self.height)
    }

    /// Decide one draw call of the sprite policy: the pixel-accurate scale
    /// for the current framebuffer size. The unverified layer composes in
    /// the caller's pixel offset and issues exactly one draw call.
    pub fn draw(&self, frame_w: u32, frame_h: u32) -> (p: TileDrawParams)
        requires
            1 <= frame_w,
            1 <= frame_h,
        ensures
            p.scale_x.num == 2 * self.atlas.tile_w_u && p.scale_x.den == frame_w,
            p.scale_y.num == 2 * self.atlas.tile_h_u && p.scale_y.den == frame_h,
            p.scale_x.wf() && p.scale_y.wf(),
    {
        let (scale_x, scale_y) = sprite_scale(&self.atlas, frame_w, frame_h);
        TileDrawParams { scale_x, scale_y }
    }
}

} // verus!
