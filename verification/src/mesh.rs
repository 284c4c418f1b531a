//! Mesh building blocks shared by both grid-rendering strategies.
//!
//! Every tile becomes one axis-aligned unit quad: four unique vertices and
//! six indices forming two triangles that share the quad's diagonal. The
//! index buffer is 16-bit, and a tile index large enough to overflow it
//! wraps modulo 2^16, exactly as the original narrowing cast does; grids
//! small enough for 16-bit indices get the exact values (see
//! `lemma_tile_indices_exact`).

use vstd::prelude::*;

use crate::frac::Frac;

verus! {

use vstd::arithmetic::div_mod::{
    lemma_div_multiples_vanish_fancy, lemma_mod_multiples_vanish, lemma_small_mod,
};

/// One mesh vertex: a 2D position in grid units (Y grows downward on screen,
/// so it is stored negated) and a 2D texture coordinate, kept as exact
/// fractions over the atlas dimensions.
#[derive(Clone, Copy, Debug, PartialEq, Eq, Structural)]
pub struct Vertex {
    pub pos_x: i64,
    pub pos_y: i64,
    pub tex_u: Frac,
    pub tex_v: Frac,
}

/// The `j`-th index entry of tile `tile_index`: the pattern
/// `{b, b+1, b+2, b+2, b+1, b+3}` with `b = 4*tile_index`, each entry
/// wrapped into 16 bits.
pub open spec fn spec_tile_indices(tile_index: int) -> Seq<int> {
    let b = 4 * tile_index;
    seq![
        b % 0x10000,
        (b + 1) % 0x10000,
        (b + 2) % 0x10000,
        (b + 2) % 0x10000,
        (b + 1) % 0x10000,
        (b + 3) % 0x10000,
    ]
}

/// The six index-buffer entries of one tile: two triangles sharing the
/// quad's diagonal, vertex order TL, BL, TR / TR, BL, BR.
pub fn generate_tile_indices(tile_index: u32) -> (r: [u16; 6])
    ensures
        forall|j: int| 0 <= j < 6 ==> r@[j] == spec_tile_indices(tile_index as int)[j],
{
    let base: u64 = (tile_index as u64) * 4;
    let i0: u16 = (base % 0x10000) as u16;
    let i1: u16 = ((base + 1) % 0x10000) as u16;
    let i2: u16 = ((base + 2) % 0x10000) as u16;
    let i3: u16 = ((base + 3) % 0x10000) as u16;
    [i0, i1, i2, i2, i1, i3]
}

/// The whole index buffer for `tile_count` tiles: the six entries of each
/// tile in turn. Both strategies share it, since the quad topology never
/// depends on the tile contents.
pub fn build_quad_indices(tile_count: u32) -> (r: Vec<u16>)
    ensures
        r@.len() == 6 * tile_count,
        forall|j: int| 0 <= j < r@.len() ==> r@[j] == spec_tile_indices(j / 6)[j % 6],
{
    let mut indices: Vec<u16> = Vec::new();
    let mut i: u32 = 0;
    while i < tile_count
        invariant
            i <= tile_count,
            indices@.len() == 6 * i,
            forall|j: int| 0 <= j < 6 * i ==> indices@[j] == spec_tile_indices(j / 6)[j % 6],
        decreases tile_count - i,
    {
        let tile = generate_tile_indices(i);
        indices.push(tile[0]);
        indices.push(tile[1]);
        indices.push(tile[2]);
        indices.push(tile[3]);
        indices.push(tile[4]);
        indices.push(tile[5]);
        proof {
            lemma_div_multiples_vanish_fancy(i as int, 0, 6);
            lemma_div_multiples_vanish_fancy(i as int, 1, 6);
            lemma_div_multiples_vanish_fancy(i as int, 2, 6);
            lemma_div_multiples_vanish_fancy(i as int, 3, 6);
            lemma_div_multiples_vanish_fancy(i as int, 4, 6);
            lemma_div_multiples_vanish_fancy(i as int, 5, 6);
            lemma_mod_multiples_vanish(i as int, 0, 6);
            lemma_mod_multiples_vanish(i as int, 1, 6);
            lemma_mod_multiples_vanish(i as int, 2, 6);
            lemma_mod_multiples_vanish(i as int, 3, 6);
            lemma_mod_multiples_vanish(i as int, 4, 6);
            lemma_mod_multiples_vanish(i as int, 5, 6);
        }
        i = i + 1;
    }
    indices
}

/// For a grid small enough for its 16-bit index buffer, the six entries of
/// tile `i` are exactly `{4i, 4i+1, 4i+2, 4i+2, 4i+1, 4i+3}`.
pub proof fn lemma_tile_indices_exact(tile_index: int)
    requires
        0 <= tile_index,
        4 * tile_index + 3 <= 0xffff,
    ensures
        spec_tile_indices(tile_index) =~= seq![
            4 * tile_index,
            4 * tile_index + 1,
            4 * tile_index + 2,
            4 * tile_index + 2,
            4 * tile_index + 1,
            4 * tile_index + 3,
        ],
{
    let b = 4 * tile_index;
    lemma_small_mod(b as nat, 0x10000);
    lemma_small_mod((b + 1) as nat, 0x10000);
    lemma_small_mod((b + 2) as nat, 0x10000);
    lemma_small_mod((b + 3) as nat, 0x10000);
}

} // verus!
