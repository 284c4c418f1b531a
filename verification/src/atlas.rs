//! The atlas: dimensions, descriptor validation, and the loaded atlas value.
//!
//! An atlas is one packed image holding many fixed-size tiles. Its pixel
//! dimensions come from the decoded image; its tile dimensions come from a
//! descriptor file whose integers must fit an unsigned 16-bit range. Reading
//! the descriptor, decoding the image and uploading the texture are I/O and
//! happen outside the library; the checks and the assembled dimensions are
//! verified here.

use vstd::prelude::*;

verus! {

/// Pixel dimensions of the atlas image and of one tile.
///
/// Fixed at load time, immutable thereafter. The atlas dimensions are those
/// of the decoded image; the tile dimensions come from the descriptor.
#[derive(Clone, Copy, Debug, PartialEq, Eq, Structural)]
pub struct AtlasDimensions {
    pub atlas_w_u: u16,
    pub atlas_h_u: u16,
    pub tile_w_u: u16,
    pub tile_h_u: u16,
}

impl AtlasDimensions {
    /// The number of tile columns in the atlas: integer division, so a
    /// leftover strip narrower than a tile is simply unreachable.
    pub open spec fn spec_columns(self) -> int {
        self.atlas_w_u as int / self.tile_w_u as int
    }

    /// A well-formed atlas has nonempty tiles no larger than the image, so
    /// it holds at least one full column and one full row of tiles.
    pub open spec fn wf(self) -> bool {
        &&& 1 <= self.tile_w_u <= self.atlas_w_u
        &&& 1 <= self.tile_h_u <= self.atlas_h_u
    }

    pub fn new_from_u16(atlas_width: u16, atlas_height: u16, tile_width: u16, tile_height: u16) -> (r: AtlasDimensions)
        ensures
            r == (AtlasDimensions {
                atlas_w_u: atlas_width,
                atlas_h_u: atlas_height,
                tile_w_u: tile_width,
                tile_h_u: tile_height,
            }),
    {
        AtlasDimensions {
            atlas_w_u: atlas_width,
            atlas_h_u: atlas_height,
            tile_w_u: tile_width,
            tile_h_u: tile_height,
        }
    }

    /// Dimensions of a freshly loaded atlas: the atlas size is taken from
    /// the decoded image's actual pixel size (narrowed to 16 bits, as the
    /// original cast narrowed it), never from a declared size field; the
    /// tile size comes from the validated descriptor.
    pub fn new_from_image(image_w: u32, image_h: u32, tile_width: u16, tile_height: u16) -> (r:
        AtlasDimensions)
        ensures
            r.atlas_w_u == image_w as int % 0x10000,
            r.atlas_h_u == image_h as int % 0x10000,
            r.tile_w_u == tile_width,
            r.tile_h_u == tile_height,
    {
        AtlasDimensions::new_from_u16(
            (image_w % 0x10000) as u16,
            (image_h % 0x10000) as u16,
            tile_width,
            tile_height,
        )
    }

    /// The number of tile columns in the atlas.
    pub fn columns(&self) -> (r: u16)
        requires
            self.tile_w_u >= 1,
        ensures
            r == self.spec_columns(),
    {
        self.atlas_w_u / self.tile_w_u
    }
}

/// Why loading an atlas failed. Loading is fatal on any failure and is never
/// retried. The `Io`, `Parse` and `Image` failures are raised by the
/// unverified loading layer; `IntegerRange` by the validation here.
#[derive(Clone, Copy, Debug, PartialEq, Eq, Structural)]
pub enum AtlasErr {
    Io,
    Parse,
    Image,
    IntegerRange,
}

/// A loaded atlas: its dimensions and the optional per-tile text labels.
/// The GPU texture decoded from the atlas image is owned by the unverified
/// layer alongside this value.
pub struct Atlas {
    pub dimensions: AtlasDimensions,
    pub labels: Vec<String>,
}

impl Atlas {
    /// Assemble a loaded atlas; absent labels default to an empty list.
    pub fn new(dimensions: AtlasDimensions, labels: Option<Vec<String>>) -> (r: Atlas)
        ensures
            r.dimensions == dimensions,
            labels is Some ==> r.labels == labels->0,
            labels is None ==> r.labels@ == Seq::<String>::empty(),
    {
        Atlas {
            dimensions,
            labels: match labels {
                Some(l) => l,
                None => Vec::new(),
            },
        }
    }
}

/// Check that the descriptor's tile dimensions fit an unsigned 16-bit range.
/// This runs before any image work: a descriptor outside the range fails
/// with `IntegerRange` without any image I/O being attempted.
pub fn validate_tile_dims(tile_width: i64, tile_height: i64) -> (r: Result<(u16, u16), AtlasErr>)
    ensures
        r is Ok <==> (0 <= tile_width <= u16::MAX && 0 <= tile_height <= u16::MAX),
        r matches Ok((w, h)) ==> w == tile_width && h == tile_height,
        r is Err ==> r->Err_0 == AtlasErr::IntegerRange,
{
    if tile_width < 0 || tile_width > u16::MAX as i64 || tile_height < 0 || tile_height > u16::MAX as i64 {
        Err(AtlasErr::IntegerRange)
    } else {
        Ok((tile_width as u16, tile_height as u16))
    }
}

} // verus!
