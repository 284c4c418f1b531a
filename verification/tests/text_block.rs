use tilecon::atlas::{Atlas, AtlasDimensions};
use tilecon::textblock::{TextBlock, TextBlockErr};

fn console_atlas() -> Atlas {
    Atlas::new(AtlasDimensions::new_from_u16(128, 128, 16, 16), None)
}

#[test]
fn construction_with_exact_content_length_succeeds() {
    let atlas = console_atlas();
    let content = vec![0u16; 2000];
    let tb = TextBlock::new(&atlas, 80, 25, Some(&content)).unwrap();
    assert_eq!(tb.width, 80);
    assert_eq!(tb.height, 25);
    assert_eq!(tb.block.len(), 2000);
    assert_eq!(tb.scanline_y, 0);
}

#[test]
fn construction_with_short_content_fails() {
    let atlas = console_atlas();
    let content = vec![0u16; 1999];
    match TextBlock::new(&atlas, 80, 25, Some(&content)) {
        Err(TextBlockErr::WrongSizeBlock) => {}
        other => panic!("expected WrongSizeBlock, got {:?}", other.map(|t| t.width)),
    }
}

#[test]
fn construction_with_long_content_fails() {
    let atlas = console_atlas();
    let content = vec![0u16; 2001];
    assert!(matches!(
        TextBlock::new(&atlas, 80, 25, Some(&content)),
        Err(TextBlockErr::WrongSizeBlock)
    ));
}

#[test]
fn absent_content_defaults_to_zero_ids() {
    let atlas = console_atlas();
    let tb = TextBlock::new(&atlas, 80, 25, None).unwrap();
    assert_eq!(tb.block.len(), 2000);
    assert!(tb.block.iter().all(|&id| id == 0));
}

#[test]
fn static_geometry_of_a_two_cell_grid() {
    let atlas = Atlas::new(AtlasDimensions::new_from_u16(32, 32, 16, 16), None);
    let tb = TextBlock::new(&atlas, 2, 1, None).unwrap();
    let verts = tb.build_vertices();
    assert_eq!(verts.len(), 8);

    // Cell (0,0), corners TL, BL, TR, BR; Y is negated on screen and the
    // texcoords are the base rectangle of tile 0 (v_top = 1 at the bottom
    // corners because the texture origin is bottom-left).
    assert_eq!((verts[0].pos_x, verts[0].pos_y), (0, -1));
    assert_eq!((verts[1].pos_x, verts[1].pos_y), (0, 0));
    assert_eq!((verts[2].pos_x, verts[2].pos_y), (1, -1));
    assert_eq!((verts[3].pos_x, verts[3].pos_y), (1, 0));
    assert_eq!((verts[0].tex_u.num, verts[0].tex_u.den), (0, 32));
    assert_eq!((verts[0].tex_v.num, verts[0].tex_v.den), (16, 32));
    assert_eq!((verts[1].tex_v.num, verts[1].tex_v.den), (32, 32));
    assert_eq!((verts[2].tex_u.num, verts[2].tex_u.den), (16, 32));
    assert_eq!((verts[3].tex_u.num, verts[3].tex_v.num), (16, 32));

    // Cell (1,0) repeats the same base rectangle one unit to the right.
    assert_eq!((verts[4].pos_x, verts[4].pos_y), (1, -1));
    assert_eq!((verts[7].pos_x, verts[7].pos_y), (2, 0));
    assert_eq!((verts[4].tex_u.num, verts[4].tex_v.num), (0, 16));
}

#[test]
fn index_buffer_matches_the_quad_pattern() {
    let atlas = console_atlas();
    let tb = TextBlock::new(&atlas, 2, 2, None).unwrap();
    let ib = tb.build_indices();
    assert_eq!(ib.len(), 24);
    assert_eq!(&ib[..6], &[0, 1, 2, 2, 1, 3]);
    assert_eq!(&ib[18..], &[12, 13, 14, 14, 13, 15]);
}

#[test]
fn draw_params_carry_the_console_transform_and_uniforms() {
    let atlas = console_atlas();
    let mut tb = TextBlock::new(&atlas, 80, 25, None).unwrap();
    let p = tb.draw();
    // Scale 2/width, 2/height; translate to the top-left corner.
    assert_eq!((p.transform.sx.num, p.transform.sx.den), (2, 80));
    assert_eq!((p.transform.sy.num, p.transform.sy.den), (2, 25));
    assert_eq!((p.transform.tx.num, p.transform.tx.den), (-1, 1));
    assert_eq!((p.transform.ty.num, p.transform.ty.den), (1, 1));
    // Geometry uniforms for the GPU-side tile lookup.
    assert_eq!(p.atlas_columns, 8);
    assert_eq!((p.tile_width.num, p.tile_width.den), (16, 128));
    assert_eq!((p.tile_height.num, p.tile_height.den), (16, 128));
    // The draw binds the scanline as it was and advances it afterwards.
    assert_eq!(p.scanline_y, 0);
    assert_eq!(tb.scanline_y, 22);
}

#[test]
fn scanline_advances_as_a_sawtooth() {
    // Start at 0, step 0.22 per draw, wrap past 1.2 by 1.4 (in hundredths).
    let atlas = console_atlas();
    let mut tb = TextBlock::new(&atlas, 80, 25, None).unwrap();
    let mut bound = Vec::new();
    let mut wraps = 0;
    for _ in 0..6 {
        let before = tb.scanline_y;
        let p = tb.draw();
        bound.push(p.scanline_y);
        if tb.scanline_y < before {
            wraps += 1;
        }
        assert!(-20 <= tb.scanline_y && tb.scanline_y <= 120);
    }
    assert_eq!(bound, vec![0, 22, 44, 66, 88, 110]);
    // After 6 draws the scanline has wrapped (at least) once.
    assert_eq!(tb.scanline_y, -8);
    assert!(wraps >= 1);
}
