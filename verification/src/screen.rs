//! Initial screen content: decoding the screen-init byte stream, and the
//! deterministic fill used when no such stream is available.
//!
//! Each byte of the stream encodes `tile_id + 0x20`, an offset chosen so the
//! file doubles as printable text. Decoding subtracts 0x20 with the same
//! wraparound into a 16-bit id that the original cast performs: bytes below
//! 0x20 wrap to the top of the id range.

use vstd::prelude::*;

verus! {

/// What one screen-init byte decodes to: `b - 0x20`, wrapped into 16 bits.
pub open spec fn spec_decode_byte(b: u8) -> int {
    if b >= 0x20 {
        b - 0x20
    } else {
        b - 0x20 + 0x10000
    }
}

/// Decode one screen-init byte to a tile id.
pub fn decode_screen_byte(b: u8) -> (r: u16)
    ensures
        r == spec_decode_byte(b),
{
    if b >= 0x20 {
        (b - 0x20) as u16
    } else {
        b as u16 + 0xffe0
    }
}

/// Decode a whole screen-init stream to tile ids, byte for byte.
pub fn decode_screen_bytes(bytes: &[u8]) -> (r: Vec<u16>)
    ensures
        r@.len() == bytes@.len(),
        forall|i: int| 0 <= i < bytes@.len() ==> r@[i] == spec_decode_byte(bytes@[i]),
{
    let mut out: Vec<u16> = Vec::new();
    let mut i: usize = 0;
    while i < bytes.len()
        invariant
            i <= bytes@.len(),
            out@.len() == i,
            forall|j: int| 0 <= j < i ==> out@[j] == spec_decode_byte(bytes@[j]),
        decreases bytes@.len() - i,
    {
        out.push(decode_screen_byte(bytes[i]));
        i = i + 1;
    }
    out
}

/// The deterministic fill used when no screen-init stream exists:
/// `id[i] = 0x10 + (i mod 0x50)` for each of the `count` grid cells.
pub fn default_screen_content(count: u32) -> (r: Vec<u16>)
    ensures
        r@.len() == count,
        forall|i: int| 0 <= i < count ==> r@[i] == 0x10 + (i % 0x50),
{
    let mut out: Vec<u16> = Vec::new();
    let mut i: u32 = 0;
    while i < count
        invariant
            i <= count,
            out@.len() == i,
            forall|j: int| 0 <= j < i ==> out@[j] == 0x10 + (j % 0x50),
        decreases count - i,
    {
        out.push((0x10 + i % 0x50) as u16);
        i = i + 1;
    }
    out
}

} // verus!
