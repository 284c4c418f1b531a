use tilecon::mesh::{build_quad_indices, generate_tile_indices};

#[test]
fn indices_of_tile_zero() {
    assert_eq!(generate_tile_indices(0), [0, 1, 2, 2, 1, 3]);
}

#[test]
fn indices_follow_the_quad_pattern() {
    // For tile i the entries are exactly {4i, 4i+1, 4i+2, 4i+2, 4i+1, 4i+3}.
    for i in [1u32, 5, 499, 1999, 16383] {
        let b = (4 * i) as u16;
        assert_eq!(generate_tile_indices(i), [b, b + 1, b + 2, b + 2, b + 1, b + 3]);
    }
}

#[test]
fn indices_wrap_past_sixteen_bits() {
    // 4 * 16384 = 65536 wraps to 0 in the 16-bit index buffer, as the
    // original narrowing cast did.
    assert_eq!(generate_tile_indices(16384), [0, 1, 2, 2, 1, 3]);
}

#[test]
fn whole_index_buffer() {
    let ib = build_quad_indices(3);
    assert_eq!(ib.len(), 18);
    for i in 0..3u16 {
        let b = 4 * i;
        let chunk = &ib[(6 * i) as usize..(6 * i + 6) as usize];
        assert_eq!(chunk, &[b, b + 1, b + 2, b + 2, b + 1, b + 3]);
    }
}

#[test]
fn empty_grid_has_empty_index_buffer() {
    assert!(build_quad_indices(0).is_empty());
}
