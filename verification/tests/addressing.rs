use tilecon::addressing::rect_for;
use tilecon::atlas::AtlasDimensions;

fn dims_128() -> AtlasDimensions {
    // 128x128 atlas of 16x16 tiles: 8 columns, 8 rows.
    AtlasDimensions::new_from_u16(128, 128, 16, 16)
}

#[test]
fn columns_is_integer_division() {
    assert_eq!(dims_128().columns(), 8);
    // A leftover strip narrower than a tile is unreachable.
    let d = AtlasDimensions::new_from_u16(130, 128, 16, 16);
    assert_eq!(d.columns(), 8);
}

#[test]
fn rect_for_column_and_row() {
    let d = dims_128();
    let r = rect_for(10, &d);
    assert_eq!(r.column, 10 % 8);
    assert_eq!(r.row, 10 / 8);
}

#[test]
fn rect_for_normalized_rect() {
    let d = dims_128();
    let r = rect_for(10, &d);
    // u0 = (tile_w/atlas_w) * column = 16/128 * 2.
    assert_eq!((r.u0.num, r.u0.den), (32, 128));
    assert_eq!((r.u1.num, r.u1.den), (48, 128));
    // v_top = 1 - (tile_h/atlas_h) * row = (128 - 16*1)/128.
    assert_eq!((r.v_top.num, r.v_top.den), (112, 128));
    assert_eq!((r.v_bottom.num, r.v_bottom.den), (96, 128));
}

#[test]
fn rect_for_wrap_consistency() {
    // Shifting the id by k whole columns keeps the column and moves the row
    // by k.
    let d = dims_128();
    let base = rect_for(10, &d);
    for k in 1..5u32 {
        let shifted = rect_for(10 + k * 8, &d);
        assert_eq!(shifted.column, base.column);
        assert_eq!(shifted.row, base.row + k);
    }
}

#[test]
fn rect_for_id_beyond_tile_count_wraps_silently() {
    // 8x8 = 64 tiles; id 70 addresses column 6 of the nonexistent row 8,
    // whose v coordinates fall below zero. Documented behaviour, no clamp.
    let d = dims_128();
    let r = rect_for(70, &d);
    assert_eq!(r.column, 6);
    assert_eq!(r.row, 8);
    assert_eq!((r.v_top.num, r.v_top.den), (0, 128));
    assert_eq!((r.v_bottom.num, r.v_bottom.den), (-16, 128));
}

#[test]
fn rect_for_tile_zero_is_base_rect() {
    let d = dims_128();
    let r = rect_for(0, &d);
    assert_eq!((r.column, r.row), (0, 0));
    assert_eq!((r.u0.num, r.u1.num), (0, 16));
    assert_eq!((r.v_top.num, r.v_bottom.num), (128, 112));
}
