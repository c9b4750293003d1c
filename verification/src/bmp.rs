//! Bitmap file framing for the captured pixel rows.
//!
//! The recognizer is handed a complete bitmap file: the file header, the
//! info header, then the pixel rows. Both headers serialize field by field
//! in little-endian order, with no padding between fields.

use vstd::prelude::*;

verus! {

/// Size in bytes of the serialized file header.
pub const FILE_HEADER_BYTES: u32 = 14;

/// Size in bytes of the serialized info header.
pub const INFO_HEADER_BYTES: u32 = 40;

/// The two little-endian bytes of a 16-bit value.
pub open spec fn u16_le(x: u16) -> Seq<u8> {
    seq![(x % 256) as u8, ((x / 256) % 256) as u8]
}

/// The four little-endian bytes of a 32-bit value.
pub open spec fn u32_le(x: u32) -> Seq<u8> {
    seq![
        (x % 256) as u8,
        ((x / 256) % 256) as u8,
        ((x / 65536) % 256) as u8,
        ((x / 16777216) % 256) as u8,
    ]
}

/// Appends the two little-endian bytes of `x`.
fn push_u16_le(v: &mut Vec<u8>, x: u16)
    ensures
        final(v)@ == old(v)@ + u16_le(x),
{
    v.push((x % 256) as u8);
    v.push(((x / 256) % 256) as u8);
    proof {
        assert(v@ =~= old(v)@ + u16_le(x));
    }
}

/// Appends the four little-endian bytes of `x`.
fn push_u32_le(v: &mut Vec<u8>, x: u32)
    ensures
        final(v)@ == old(v)@ + u32_le(x),
{
    v.push((x % 256) as u8);
    v.push(((x / 256) % 256) as u8);
    v.push(((x / 65536) % 256) as u8);
    v.push(((x / 16777216) % 256) as u8);
    proof {
        assert(v@ =~= old(v)@ + u32_le(x));
    }
}

/// The bitmap file header: magic, total file size, and the offset from the
/// start of the file to the pixel data.
pub struct BMPHeader {
    /// Always the two characters `BM`.
    pub magic0: u8,
    pub magic1: u8,
    /// Size of the whole file in bytes.
    pub size: u32,
    pub reserved1: u16,
    pub reserved2: u16,
    /// Offset to the pixel data from the beginning of the file.
    pub data_offset: u32,
}

impl BMPHeader {
    /// The header for a file whose pixel data takes `data_size` bytes and
    /// follows the two headers directly.
    pub fn new(data_size: usize) -> (r: BMPHeader)
        requires
            data_size + FILE_HEADER_BYTES + INFO_HEADER_BYTES <= u32::MAX,
        ensures
            r.magic0 == 0x42,
            r.magic1 == 0x4d,
            r.size == data_size + FILE_HEADER_BYTES + INFO_HEADER_BYTES,
            r.reserved1 == 0,
            r.reserved2 == 0,
            r.data_offset == FILE_HEADER_BYTES + INFO_HEADER_BYTES,
    {
        let data_offset = FILE_HEADER_BYTES + INFO_HEADER_BYTES;
        let size = data_size as u32 + data_offset;
        BMPHeader { magic0: 0x42, magic1: 0x4d, size, reserved1: 0, reserved2: 0, data_offset }
    }

    /// The serialized header, byte for byte.
    pub open spec fn spec_bytes(self) -> Seq<u8> {
        seq![self.magic0, self.magic1] + u32_le(self.size) + u16_le(self.reserved1) + u16_le(
            self.reserved2,
        ) + u32_le(self.data_offset)
    }

    /// Serializes the header.
    pub fn to_bytes(&self) -> (r: Vec<u8>)
        ensures
            r@ == self.spec_bytes(),
            r@.len() == FILE_HEADER_BYTES,
    {
        let mut v: Vec<u8> = Vec::new();
        v.push(self.magic0);
        v.push(self.magic1);
        push_u32_le(&mut v, self.size);
        push_u16_le(&mut v, self.reserved1);
        push_u16_le(&mut v, self.reserved2);
        push_u32_le(&mut v, self.data_offset);
        proof {
            assert(v@ =~= self.spec_bytes());
        }
        v
    }
}

/// The bitmap info header: image dimensions and pixel format.
pub struct InfoHeader {
    /// Size of this structure in bytes.
    pub size: u32,
    /// Width in pixels.
    pub width: u32,
    /// Height in pixels; a negative (wrapped) value means top-down rows.
    pub height: u32,
    /// Number of planes, always 1.
    pub planes: u16,
    /// Bits per pixel.
    pub bit_depth: u16,
    /// Compression type, 0 for none.
    pub compression: u32,
    /// Size of the uncompressed data; 0 is allowed without compression.
    pub raw_size: u32,
    /// Horizontal device resolution, unused.
    pub x_pixels_per_meter: u32,
    /// Vertical device resolution, unused.
    pub y_pixels_per_meter: u32,
    /// Color table entries, unused.
    pub color_table_size: u32,
    /// Minimum color table entries, unused.
    pub color_table_min_size: u32,
}

impl InfoHeader {
    /// The info header of an uncompressed 24-bit image of the given
    /// dimensions.
    pub fn new(width: u32, height: u32) -> (r: InfoHeader)
        ensures
            r.size == INFO_HEADER_BYTES,
            r.width == width,
            r.height == height,
            r.planes == 1,
            r.bit_depth == 24,
            r.compression == 0,
            r.raw_size == 0,
            r.x_pixels_per_meter == 0,
            r.y_pixels_per_meter == 0,
            r.color_table_size == 0,
            r.color_table_min_size == 0,
    {
        InfoHeader {
            size: INFO_HEADER_BYTES,
            width,
            height,
            planes: 1,
            bit_depth: 24,
            compression: 0,
            raw_size: 0,
            x_pixels_per_meter: 0,
            y_pixels_per_meter: 0,
            color_table_size: 0,
            color_table_min_size: 0,
        }
    }

    /// The serialized header, byte for byte.
    pub open spec fn spec_bytes(self) -> Seq<u8> {
        u32_le(self.size) + u32_le(self.width) + u32_le(self.height) + u16_le(self.planes)
            + u16_le(self.bit_depth) + u32_le(self.compression) + u32_le(self.raw_size) + u32_le(
            self.x_pixels_per_meter,
        ) + u32_le(self.y_pixels_per_meter) + u32_le(self.color_table_size) + u32_le(
            self.color_table_min_size,
        )
    }

    /// Serializes the header.
    pub fn to_bytes(&self) -> (r: Vec<u8>)
        ensures
            r@ == self.spec_bytes(),
            r@.len() == INFO_HEADER_BYTES,
    {
        let mut v: Vec<u8> = Vec::new();
        push_u32_le(&mut v, self.size);
        push_u32_le(&mut v, self.width);
        push_u32_le(&mut v, self.height);
        push_u16_le(&mut v, self.planes);
        push_u16_le(&mut v, self.bit_depth);
        push_u32_le(&mut v, self.compression);
        push_u32_le(&mut v, self.raw_size);
        push_u32_le(&mut v, self.x_pixels_per_meter);
        push_u32_le(&mut v, self.y_pixels_per_meter);
        push_u32_le(&mut v, self.color_table_size);
        push_u32_le(&mut v, self.color_table_min_size);
        proof {
            assert(v@ =~= self.spec_bytes());
        }
        v
    }
}

/// The two's-complement wrap of a negated 32-bit value: bitmap headers store
/// top-down row order as a negated height.
pub fn wrapping_neg_u32(x: u32) -> (r: u32)
    ensures
        x == 0 ==> r == 0,
        x > 0 ==> r == 0x1_0000_0000 - x,
{
    if x == 0 {
        0
    } else {
        (u32::MAX - x) + 1
    }
}

} // verus!
