//! The text-console renderer: a tile grid drawn by GPU-side indirection.
//!
//! Geometry is generated once and never rewritten: every quad carries the
//! base rectangle of tile 0, and the per-tile content travels separately as
//! a small lookup buffer (one 16-bit id per tile, the grid itself). The
//! rendering stage resolves each vertex's tile, reads its id from the lookup
//! buffer and offsets the base rectangle with the same column/row arithmetic
//! as `addressing::rect_for`, steered by the uniforms this module computes.
//! A content change therefore costs one lookup-buffer upload instead of a
//! vertex rewrite.

use vstd::prelude::*;

use crate::addressing::rect_for;
use crate::atlas::{Atlas, AtlasDimensions};
use crate::frac::Frac;
use crate::mesh::{build_quad_indices, spec_tile_indices, Vertex};
use crate::scanline::{advance_scanline, scanline_in_range, spec_advance};
use crate::transform::{console_transform, Transform2D};

verus! {

use vstd::arithmetic::div_mod::{
    lemma_div_multiples_vanish_fancy, lemma_mod_multiples_vanish, lemma_small_mod, lemma_div_of0,
    lemma_div_non_zero,
};
use vstd::slice::slice_to_vec;

/// One corner of the static quad of a grid cell at `(tx, ty)`: positions in
/// grid units with Y negated for the downward-growing screen convention, and
/// the base texture rectangle of tile 0 (the rendering stage adds the
/// per-tile offset).
pub open spec fn text_corner_vertex(
    dims: AtlasDimensions,
    tx: int,
    ty: int,
    addx: int,
    addy: int,
) -> Vertex {
    Vertex {
        pos_x: (tx + addx) as i64,
        pos_y: (0 - ty - addy) as i64,
        tex_u: Frac { num: (dims.tile_w_u * addx) as i64, den: dims.atlas_w_u as i64 },
        tex_v: Frac {
            num: (dims.atlas_h_u - dims.tile_h_u * addy) as i64,
            den: dims.atlas_h_u as i64,
        },
    }
}

/// The four unique vertices of one grid cell, in the order TL, BL, TR, BR.
pub open spec fn spec_text_quad(dims: AtlasDimensions, tx: int, ty: int) -> Seq<Vertex> {
    seq![
        text_corner_vertex(dims, tx, ty, 0, 1),
        text_corner_vertex(dims, tx, ty, 0, 0),
        text_corner_vertex(dims, tx, ty, 1, 1),
        text_corner_vertex(dims, tx, ty, 1, 0),
    ]
}

/// Everything one draw call binds besides the mesh and the textures: the
/// clip-space transform, the scanline scalar (in hundredths), and the
/// geometry uniforms the rendering stage needs to resolve tile ids into
/// atlas rectangles.
#[derive(Clone, Copy, Debug, PartialEq, Eq, Structural)]
pub struct TextDrawParams {
    pub transform: Transform2D,
    pub scanline_y: i32,
    pub atlas_columns: u32,
    pub tile_width: Frac,
    pub tile_height: Frac,
}

/// Why constructing a text block failed. Buffer and texture creation happen
/// in the unverified layer, which reports their failures with the matching
/// variant; all of them are fatal and never retried.
#[derive(Clone, Copy, Debug, PartialEq, Eq, Structural)]
pub enum TextBlockErr {
    WrongSizeBlock,
    VBOCreation,
    IBOCreation,
    TextureCreation,
}

/// A `width x height` grid of 16-bit tile ids with the scanline state,
/// rendered by GPU-side indirection.
pub struct TextBlock {
    pub atlas: AtlasDimensions,
    pub width: u32,
    pub height: u32,
    pub block: Vec<u16>,
    pub scanline_y: i32,
}

impl TextBlock {
    /// The grid's invariant: a well-formed atlas, content of exactly
    /// `width * height` ids (small enough for 32-bit tile indices), and a
    /// scanline inside its sawtooth range.
    pub open spec fn wf(self) -> bool {
        &&& self.atlas.wf()
        &&& self.block@.len() == (self.width as int) * (self.height as int)
        &&& (self.width as int) * (self.height as int) <= u32::MAX as int
        &&& scanline_in_range(self.scanline_y as int)
    }

    /// The four static vertices of the grid cell at `position`: its unit
    /// quad, textured with the base rectangle of tile 0.
    pub fn generate_tile_triangles(atlas: &AtlasDimensions, position: (u32, u32)) -> (r: [Vertex; 4])
        requires
            atlas.wf(),
        ensures
            forall|j: int| 0 <= j < 4
                ==> r@[j] == spec_text_quad(*atlas, position.0 as int, position.1 as int)[j],
    {
        proof {
            lemma_div_non_zero(atlas.atlas_w_u as int, atlas.tile_w_u as int);
            lemma_small_mod(0, atlas.spec_columns() as nat);
            lemma_div_of0(atlas.spec_columns());
        }
        let base = rect_for(0, atlas);
        let x0: i64 = position.0 as i64;
        let x1: i64 = position.0 as i64 + 1;
        let y0: i64 = -(position.1 as i64);
        let y1: i64 = -(position.1 as i64) - 1;
        [
            Vertex { pos_x: x0, pos_y: y1, tex_u: base.u0, tex_v: base.v_bottom },
            Vertex { pos_x: x0, pos_y: y0, tex_u: base.u0, tex_v: base.v_top },
            Vertex { pos_x: x1, pos_y: y1, tex_u: base.u1, tex_v: base.v_bottom },
            Vertex { pos_x: x1, pos_y: y0, tex_u: base.u1, tex_v: base.v_top },
        ]
    }

    /// Build a text block over `atlas` from optional initial content.
    /// Supplied content must hold exactly one id per grid cell; otherwise
    /// the content defaults to all-zero tile ids. The scanline starts at 0.
    pub fn new(atlas: &Atlas, width: u32, height: u32, block: Option<&[u16]>) -> (r: Result<
        TextBlock,
        TextBlockErr,
    >)
        requires
            atlas.dimensions.wf(),
            (width as int) * (height as int) <= u32::MAX as int,
        ensures
            (match block {
                Some(b) => r is Ok <==> b@.len() == (width as int) * (height as int),
                None => r is Ok,
            }),
            r is Err ==> r->Err_0 == TextBlockErr::WrongSizeBlock,
            r matches Ok(t) ==> {
                &&& t.wf()
                &&& t.atlas == atlas.dimensions
                &&& t.width == width
                &&& t.height == height
                &&& t.scanline_y == 0
                &&& t.block@.len() == (width as int) * (height as int)
                &&& (match block {
                    Some(b) => t.block@ == b@,
                    None => forall|i: int| 0 <= i < t.block@.len() ==> t.block@[i] == 0u16,
                })
            },
    {
        let n: usize = (width * height) as usize;
        let final_block: Vec<u16> = match block {
            Some(b) => {
                if b.len() != n {
                    return Err(TextBlockErr::WrongSizeBlock);
                }
                slice_to_vec(b)
            },
            None => {
                let mut zeros: Vec<u16> = Vec::new();
                let mut i: usize = 0;
                while i < n
                    invariant
                        i <= n,
                        zeros@.len() == i,
                        forall|j: int| 0 <= j < i ==> zeros@[j] == 0u16,
                    decreases n - i,
                {
                    zeros.push(0);
                    i = i + 1;
                }
                zeros
            },
        };
        Ok(TextBlock { atlas: atlas.dimensions, width, height, block: final_block, scanline_y: 0 })
    }

    /// The static vertex buffer: four vertices per tile, row-major over the
    /// grid, each cell textured with the base rectangle of tile 0.
    pub fn build_vertices(&self) -> (r: Vec<Vertex>)
        requires
            self.wf(),
        ensures
            r@.len() == 4 * ((self.width as int) * (self.height as int)),
            forall|j: int| 0 <= j < r@.len()
                ==> r@[j] == spec_text_quad(
                    self.atlas,
                    (j / 4) % (self.width as int),
                    (j / 4) / (self.width as int),
                )[j % 4],
    {
        let w: u32 = self.width;
        let n: usize = (self.width * self.height) as usize;
        let mut verts: Vec<Vertex> = Vec::new();
        let mut i: usize = 0;
        while i < n
            invariant
                self.wf(),
                w == self.width,
                n == (self.width as int) * (self.height as int),
                n <= u32::MAX as int,
                i <= n,
                verts@.len() == 4 * i,
                forall|j: int| 0 <= j < 4 * i
                    ==> verts@[j] == spec_text_quad(
                        self.atlas,
                        (j / 4) % (self.width as int),
                        (j / 4) / (self.width as int),
                    )[j % 4],
            decreases n - i,
        {
            proof {
                if w == 0 {
                    assert((self.width as int) * (self.height as int) == 0);
                }
            }
            let iu: u32 = i as u32;
            let tx: u32 = iu % w;
            let ty: u32 = iu / w;
            let quad = Self::generate_tile_triangles(&self.atlas, (tx, ty));
            verts.push(quad[0]);
            verts.push(quad[1]);
            verts.push(quad[2]);
            verts.push(quad[3]);
            proof {
                lemma_div_multiples_vanish_fancy(i as int, 0, 4);
                lemma_div_multiples_vanish_fancy(i as int, 1, 4);
                lemma_div_multiples_vanish_fancy(i as int, 2, 4);
                lemma_div_multiples_vanish_fancy(i as int, 3, 4);
                lemma_mod_multiples_vanish(i as int, 0, 4);
                lemma_mod_multiples_vanish(i as int, 1, 4);
                lemma_mod_multiples_vanish(i as int, 2, 4);
                lemma_mod_multiples_vanish(i as int, 3, 4);
            }
            i = i + 1;
        }
        verts
    }

    /// The static index buffer: six entries per tile, the two-triangle
    /// pattern shared by both strategies.
    pub fn build_indices(&self) -> (r: Vec<u16>)
        requires
            self.wf(),
        ensures
            r@.len() == 6 * ((self.width as int) * (self.height as int)),
            forall|j: int| 0 <= j < r@.len() ==> r@[j] == spec_tile_indices(j / 6)[j % 6],
    {
        build_quad_indices(self.width * self.height)
    }

    /// Decide one draw call: compute the console transform and the geometry
    /// uniforms, hand out the scanline scalar to bind, and advance the
    /// scanline for the next frame. The unverified layer issues exactly one
    /// draw call with these values between computing and advancing.
    pub fn draw(&mut self) -> (p: TextDrawParams)
        requires
            old(self).wf(),
            1 <= old(self).width,
            1 <= old(self).height,
        ensures
            final(self).atlas == old(self).atlas,
            final(self).width == old(self).width,
            final(self).height == old(self).height,
            final(self).block@ == old(self).block@,
            final(self).scanline_y == spec_advance(old(self).scanline_y as int),
            final(self).wf(),
            p.transform.sx.num == 2 && p.transform.sx.den == old(self).width,
            p.transform.sy.num == 2 && p.transform.sy.den == old(self).height,
            p.transform.tx.num == -1 && p.transform.tx.den == 1,
            p.transform.ty.num == 1 && p.transform.ty.den == 1,
            p.scanline_y == old(self).scanline_y,
            p.atlas_columns == old(self).atlas.spec_columns(),
            p.tile_width.num == old(self).atlas.tile_w_u,
            p.tile_width.den == old(self).atlas.atlas_w_u,
            p.tile_height.num == old(self).atlas.tile_h_u,
            p.tile_height.den == old(self).atlas.atlas_h_u,
            p.transform.wf() && p.tile_width.wf() && p.tile_height.wf(),
    {
        let transform = console_transform(self.width, self.height);
        let columns: u32 = self.atlas.columns() as u32;
        let p = TextDrawParams {
            transform,
            scanline_y: self.scanline_y,
            atlas_columns: columns,
            tile_width: Frac { num: self.atlas.tile_w_u as i64, den: self.atlas.atlas_w_u as i64 },
            tile_height: Frac { num: self.atlas.tile_h_u as i64, den: self.atlas.atlas_h_u as i64 },
        };
        self.scanline_y = advance_scanline(self.scanline_y);
        p
    }
}

} // verus!
