use tilecon::atlas::{validate_tile_dims, Atlas, AtlasDimensions, AtlasErr};

#[test]
fn tile_dims_in_range_pass() {
    assert_eq!(validate_tile_dims(8, 12), Ok((8, 12)));
    assert_eq!(validate_tile_dims(0, 0), Ok((0, 0)));
    assert_eq!(validate_tile_dims(65535, 65535), Ok((65535, 65535)));
}

#[test]
fn negative_tile_width_fails_with_integer_range() {
    // The range check runs before any image I/O: it needs nothing but the
    // two descriptor integers.
    assert_eq!(validate_tile_dims(-1, 8), Err(AtlasErr::IntegerRange));
}

#[test]
fn oversized_tile_width_fails_with_integer_range() {
    assert_eq!(validate_tile_dims(70000, 8), Err(AtlasErr::IntegerRange));
}

#[test]
fn tile_height_is_checked_too() {
    assert_eq!(validate_tile_dims(8, -1), Err(AtlasErr::IntegerRange));
    assert_eq!(validate_tile_dims(8, 70000), Err(AtlasErr::IntegerRange));
}

#[test]
fn dimensions_come_from_the_given_values() {
    let d = AtlasDimensions::new_from_u16(256, 128, 8, 16);
    assert_eq!(d.atlas_w_u, 256);
    assert_eq!(d.atlas_h_u, 128);
    assert_eq!(d.tile_w_u, 8);
    assert_eq!(d.tile_h_u, 16);
}

#[test]
fn atlas_size_comes_from_the_image() {
    let d = AtlasDimensions::new_from_image(640, 400, 16, 16);
    assert_eq!((d.atlas_w_u, d.atlas_h_u), (640, 400));
    assert_eq!((d.tile_w_u, d.tile_h_u), (16, 16));
    // An image wider than 16 bits narrows, as the original cast narrowed.
    let big = AtlasDimensions::new_from_image(0x10000 + 128, 128, 16, 16);
    assert_eq!(big.atlas_w_u, 128);
}

#[test]
fn labels_default_to_empty() {
    let d = AtlasDimensions::new_from_u16(128, 128, 16, 16);
    let with = Atlas::new(d, Some(vec![String::from("wall"), String::from("floor")]));
    assert_eq!(with.labels, vec![String::from("wall"), String::from("floor")]);
    let without = Atlas::new(d, None);
    assert!(without.labels.is_empty());
    assert_eq!(without.dimensions, d);
}
