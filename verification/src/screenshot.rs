//! Captured pixel buffers and their bitmap framing.
//!
//! A capture holds one tightly packed 24-bit pixel buffer in bottom-up row
//! order, covering the whole virtual screen. [`Screenshot::get_bmp_data`]
//! cuts a rectangular region out of it and frames the rows as a complete
//! top-down bitmap file, each row padded to a multiple of four bytes, ready
//! to hand to the recognizer.

use vstd::prelude::*;
use crate::bmp::{BMPHeader, FILE_HEADER_BYTES, INFO_HEADER_BYTES, InfoHeader, wrapping_neg_u32};

verus! {

/// An axis-aligned rectangle.
#[derive(Clone, Copy, Debug, PartialEq, Eq, Structural)]
pub struct Rectangle<T> {
    pub x: T,
    pub y: T,
    pub w: T,
    pub h: T,
}

/// One captured frame: the pixel bytes and the captured screen bounds.
pub struct Screenshot {
    /// Pixel bytes: 3 bytes per pixel, rows bottom-up, no row padding.
    pub bgra: Vec<u8>,
    /// The captured area of the virtual screen.
    pub bounds: Rectangle<i32>,
}

/// Bytes per padded bitmap row of `w` pixels: 3 bytes per pixel, rounded up
/// to a multiple of 4.
pub open spec fn row_size_spec(w: u32) -> int {
    ((3 * w + 3) / 4) * 4
}

/// A sequence of `n` zero bytes.
pub open spec fn zero_bytes(n: int) -> Seq<u8> {
    Seq::new(n as nat, |i| 0u8)
}

/// Where row `k` of the extracted region starts in the capture buffer: the
/// buffer stores rows bottom-up, the extracted file is top-down.
pub open spec fn row_start_spec(bounds: Rectangle<i32>, region: Rectangle<u32>, k: int) -> int {
    3 * ((bounds.h - 1 - region.y - k) * bounds.w + region.x)
}

/// Row `k` of the extracted region: the region's pixel bytes, then the
/// padding zeros.
pub open spec fn row_spec(bgra: Seq<u8>, bounds: Rectangle<i32>, region: Rectangle<u32>, k: int)
    -> Seq<u8> {
    bgra.subrange(row_start_spec(bounds, region, k), row_start_spec(bounds, region, k) + 3
        * region.w) + zero_bytes(row_size_spec(region.w) - 3 * region.w)
}

/// The first `k` extracted rows, concatenated.
pub open spec fn rows_spec(bgra: Seq<u8>, bounds: Rectangle<i32>, region: Rectangle<u32>, k: int)
    -> Seq<u8>
    decreases k,
{
    if k <= 0 {
        Seq::empty()
    } else {
        rows_spec(bgra, bounds, region, k - 1) + row_spec(bgra, bounds, region, k - 1)
    }
}

/// The complete bitmap file for a region of a capture: file header, info
/// header with a wrapped negative height for top-down rows, then the rows.
pub open spec fn bmp_file_spec(s: Screenshot, region: Rectangle<u32>) -> Seq<u8> {
    let data_size = row_size_spec(region.w) * region.h;
    let file_header = BMPHeader {
        magic0: 0x42,
        magic1: 0x4d,
        size: (data_size + FILE_HEADER_BYTES + INFO_HEADER_BYTES) as u32,
        reserved1: 0,
        reserved2: 0,
        data_offset: (FILE_HEADER_BYTES + INFO_HEADER_BYTES) as u32,
    };
    let info_header = InfoHeader {
        size: INFO_HEADER_BYTES,
        width: region.w,
        height: if region.h == 0 {
            0u32
        } else {
            (0x1_0000_0000 - region.h) as u32
        },
        planes: 1,
        bit_depth: 24,
        compression: 0,
        raw_size: 0,
        x_pixels_per_meter: 0,
        y_pixels_per_meter: 0,
        color_table_size: 0,
        color_table_min_size: 0,
    };
    file_header.spec_bytes() + info_header.spec_bytes() + rows_spec(
        s.bgra@,
        s.bounds,
        region,
        region.h as int,
    )
}

/// Appends `src[start..end]` to `dst`.
fn push_range(dst: &mut Vec<u8>, src: &Vec<u8>, start: usize, end: usize)
    requires
        start <= end <= src@.len(),
    ensures
        final(dst)@ == old(dst)@ + src@.subrange(start as int, end as int),
{
    let mut idx = start;
    while idx < end
        invariant
            start <= idx <= end <= src@.len(),
            dst@ == old(dst)@ + src@.subrange(start as int, idx as int),
        decreases end - idx,
    {
        let b = src[idx];
        dst.push(b);
        proof {
            assert(src@.subrange(start as int, idx + 1) =~= src@.subrange(start as int, idx as int)
                .push(b));
        }
        idx = idx + 1;
    }
    proof {
        assert(dst@ =~= old(dst)@ + src@.subrange(start as int, end as int));
    }
}

/// Appends `n` zero bytes to `dst`.
fn push_zeros(dst: &mut Vec<u8>, n: u32)
    ensures
        final(dst)@ == old(dst)@ + zero_bytes(n as int),
{
    let mut p: u32 = 0;
    while p < n
        invariant
            p <= n,
            dst@ == old(dst)@ + zero_bytes(p as int),
        decreases n - p,
    {
        dst.push(0);
        proof {
            assert(zero_bytes(p + 1) =~= zero_bytes(p as int).push(0u8));
        }
        p = p + 1;
    }
    proof {
        assert(dst@ =~= old(dst)@ + zero_bytes(n as int));
    }
}

/// The complete bitmap file of an all-black image of the given dimensions,
/// used as the backdrop before any capture is shown.
pub open spec fn blank_bmp_spec(width: u32, height: u32) -> Seq<u8> {
    let data_size = row_size_spec(width) * height;
    let file_header = BMPHeader {
        magic0: 0x42,
        magic1: 0x4d,
        size: (data_size + FILE_HEADER_BYTES + INFO_HEADER_BYTES) as u32,
        reserved1: 0,
        reserved2: 0,
        data_offset: (FILE_HEADER_BYTES + INFO_HEADER_BYTES) as u32,
    };
    let info_header = InfoHeader {
        size: INFO_HEADER_BYTES,
        width,
        height: if height == 0 {
            0u32
        } else {
            (0x1_0000_0000 - height) as u32
        },
        planes: 1,
        bit_depth: 24,
        compression: 0,
        raw_size: 0,
        x_pixels_per_meter: 0,
        y_pixels_per_meter: 0,
        color_table_size: 0,
        color_table_min_size: 0,
    };
    file_header.spec_bytes() + info_header.spec_bytes() + zero_bytes(data_size)
}

/// Frames an all-black image of the given dimensions as a complete bitmap
/// file.
pub fn blank_bmp_data(width: u32, height: u32) -> (r: Vec<u8>)
    requires
        3 * width + 3 <= u32::MAX,
        row_size_spec(width) * height + FILE_HEADER_BYTES + INFO_HEADER_BYTES <= u32::MAX,
    ensures
        r@ == blank_bmp_spec(width, height),
{
    let row_size: u32 = ((3 * width + 3) / 4) * 4;
    proof {
        assert(row_size == row_size_spec(width));
    }
    let data_size: usize = (row_size as usize) * (height as usize);
    let mut file = BMPHeader::new(data_size).to_bytes();
    let mut info_bytes = InfoHeader::new(width, wrapping_neg_u32(height)).to_bytes();
    file.append(&mut info_bytes);
    push_zeros(&mut file, data_size as u32);
    proof {
        assert(file@ =~= blank_bmp_spec(width, height));
    }
    file
}

impl Screenshot {
    /// A consistent capture: nonnegative bounds and exactly one 3-byte pixel
    /// per cell of the bounds.
    pub open spec fn wf(self) -> bool {
        &&& self.bounds.w >= 0
        &&& self.bounds.h >= 0
        &&& self.bgra@.len() == 3 * self.bounds.w * self.bounds.h
    }

    /// Frames the given region of the capture as a complete bitmap file.
    pub fn get_bmp_data(&self, region: Rectangle<u32>) -> (r: Vec<u8>)
        requires
            self.wf(),
            region.y + region.h <= self.bounds.h,
            region.x + region.w <= self.bounds.w,
            3 * region.w + 3 <= u32::MAX,
            row_size_spec(region.w) * region.h + FILE_HEADER_BYTES + INFO_HEADER_BYTES
                <= u32::MAX,
        ensures
            r@ == bmp_file_spec(*self, region),
    {
        let row_size: u32 = ((3 * region.w + 3) / 4) * 4;
        proof {
            assert(row_size == row_size_spec(region.w));
            assert(3 * region.w <= row_size <= 3 * region.w + 3);
        }
        let row_padding: u32 = row_size - 3 * region.w;

        let data_size: usize = (row_size as usize) * (region.h as usize);
        let mut file = BMPHeader::new(data_size).to_bytes();
        let mut info_bytes = InfoHeader::new(region.w, wrapping_neg_u32(region.h)).to_bytes();
        file.append(&mut info_bytes);
        let ghost header = bmp_file_spec(*self, region).subrange(
            0,
            FILE_HEADER_BYTES + INFO_HEADER_BYTES,
        );
        proof {
            assert(file@ =~= header);
            assert(file@ =~= header + rows_spec(self.bgra@, self.bounds, region, 0));
        }

        let bh: u32 = self.bounds.h as u32;
        let bw: usize = self.bounds.w as usize;
        let buf_len: usize = self.bgra.len();

        let mut k: u32 = 0;
        while k < region.h
            invariant
                k <= region.h,
                self.wf(),
                region.y + region.h <= self.bounds.h,
                region.x + region.w <= self.bounds.w,
                3 * region.w <= row_size_spec(region.w) <= 3 * region.w + 3,
                row_size == row_size_spec(region.w),
                row_padding == row_size_spec(region.w) - 3 * region.w,
                bh == self.bounds.h,
                bw == self.bounds.w,
                buf_len == self.bgra@.len(),
                file@ == header + rows_spec(self.bgra@, self.bounds, region, k as int),
            decreases region.h - k,
        {
            let top: u32 = bh - 1 - region.y - k;
            proof {
                assert((top as int) * (bw as int) + (region.x as int) + (region.w as int) <= (
                self.bounds.h as int) * (bw as int)) by (nonlinear_arith)
                    requires
                        top as int <= self.bounds.h - 1,
                        region.x + region.w <= bw as int,
                        bw >= 0,
                        top >= 0,
                ;
                assert(3 * ((self.bounds.h as int) * (bw as int)) == 3 * (self.bounds.w as int) * (
                self.bounds.h as int)) by (nonlinear_arith)
                    requires
                        bw as int == self.bounds.w as int,
                ;
                assert(3 * ((self.bounds.h as int) * (bw as int)) == buf_len as int);
            }
            let row_start: usize = 3 * ((top as usize) * bw + (region.x as usize));
            let row_end: usize = row_start + 3 * (region.w as usize);
            proof {
                assert(row_start == row_start_spec(self.bounds, region, k as int));
                assert(row_end <= buf_len);
            }
            push_range(&mut file, &self.bgra, row_start, row_end);
            push_zeros(&mut file, row_padding);
            proof {
                assert(file@ =~= header + rows_spec(self.bgra@, self.bounds, region, k + 1));
            }
            k = k + 1;
        }
        proof {
            assert(file@ =~= bmp_file_spec(*self, region));
        }
        file
    }
}

} // verus!
