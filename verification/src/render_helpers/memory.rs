//! Pictures in memory.
use vstd::prelude::*;

use crate::geometry::{FloatBits, Size};
use crate::utils::transform::Transform;

verus! {

/// A picture in memory.
#[derive(Debug)]
pub struct MemoryBuffer {
    data: Vec<u8>,
    format: u32,
    size: Size,
    scale: FloatBits,
    transform: Transform,
}

/// How many bytes a row of a picture takes.
pub open spec fn stride(bits_per_pixel: usize, width: i32) -> int {
    width * (bits_per_pixel / 8)
}

/// Whether some data hold a picture of a size, with so many bits to a pixel.
pub open spec fn holds_picture(data: Seq<u8>, bits_per_pixel: usize, size: Size) -> bool {
    &&& size.w >= 0
    &&& size.h >= 0
    &&& stride(bits_per_pixel, size.w) <= i32::MAX
    &&& stride(bits_per_pixel, size.w) * size.h <= i32::MAX
    &&& stride(bits_per_pixel, size.w) * size.h <= data.len()
}

impl MemoryBuffer {
    /// The data.
    pub closed spec fn bytes(&self) -> Seq<u8> {
        self.data@
    }

    /// The code of the format.
    pub closed spec fn format_code(&self) -> u32 {
        self.format
    }

    /// The size.
    pub closed spec fn pixel_size(&self) -> Size {
        self.size
    }

    /// The scale.
    pub closed spec fn own_scale(&self) -> FloatBits {
        self.scale
    }

    /// The transform.
    pub closed spec fn own_transform(&self) -> Transform {
        self.transform
    }

    /// Makes a picture of data that hold one of the size. `format` is the code of its format, which
    /// has so many bits to a pixel.
    pub fn new(
        data: Vec<u8>,
        format: u32,
        bits_per_pixel: usize,
        size: Size,
        scale: FloatBits,
        transform: Transform,
    ) -> (r: MemoryBuffer)
        requires
            holds_picture(data@, bits_per_pixel, size),
        ensures
            r.bytes() == data@,
            r.format_code() == format,
            r.pixel_size() == size,
            r.own_scale() == scale,
            r.own_transform() == transform,
    {
        MemoryBuffer { data, format, size, scale, transform }
    }

    /// Makes a picture of data, if they hold one of the size. `format` is the code of its format, and
    /// `bits_per_pixel` how many bits it has to a pixel, if that is known.
    pub fn from_format(
        data: Vec<u8>,
        format: u32,
        bits_per_pixel: Option<usize>,
        size: Size,
        scale: FloatBits,
        transform: Transform,
    ) -> (r: Option<MemoryBuffer>)
        ensures
            (r is Some) == (bits_per_pixel matches Some(bits) && holds_picture(data@, bits, size)),
            r matches Some(buffer) ==> {
                &&& buffer.bytes() == data@
                &&& buffer.format_code() == format
                &&& buffer.pixel_size() == size
                &&& buffer.own_scale() == scale
                &&& buffer.own_transform() == transform
            },
    {
        let Some(bits) = bits_per_pixel else {
            return None;
        };
        if !MemoryBuffer::fits(&data, bits, size) {
            return None;
        }
        Some(MemoryBuffer::new(data, format, bits, size, scale, transform))
    }

    /// Whether data hold a picture of a size, with so many bits to a pixel.
    pub fn fits(data: &Vec<u8>, bits_per_pixel: usize, size: Size) -> (r: bool)
        ensures
            r == holds_picture(data@, bits_per_pixel, size),
    {
        if size.w < 0 || size.h < 0 {
            return false;
        }
        let bytes: usize = bits_per_pixel / 8;
        if size.w > 0 && bytes > (i32::MAX / size.w) as usize {
            assert(size.w * bytes > i32::MAX) by (nonlinear_arith)
                requires
                    size.w > 0,
                    bytes > i32::MAX / size.w,
            ;
            return false;
        }
        assert(size.w * bytes <= i32::MAX) by (nonlinear_arith)
            requires
                size.w >= 0,
                bytes >= 0,
                size.w > 0 ==> bytes <= i32::MAX / size.w,
        ;
        let row: i64 = if size.w == 0 {
            0
        } else {
            (size.w as i64) * (bytes as i64)
        };
        assert(row == stride(bits_per_pixel, size.w)) by {
            assert(0 * bytes == 0);
        }
        assert(row * size.h <= i32::MAX * i32::MAX) by (nonlinear_arith)
            requires
                0 <= row <= i32::MAX,
                0 <= size.h <= i32::MAX,
        ;
        assert(row * size.h >= 0) by (nonlinear_arith)
            requires
                0 <= row,
                0 <= size.h,
        ;
        let total: i64 = row * (size.h as i64);
        total <= i32::MAX as i64 && total as usize <= data.len()
    }

    /// The data.
    pub fn data(&self) -> (r: &Vec<u8>)
        ensures
            r@ == self.bytes(),
    {
        &self.data
    }

    /// The code of the format.
    pub fn format(&self) -> (r: u32)
        ensures
            r == self.format_code(),
    {
        self.format
    }

    /// The size.
    pub fn size(&self) -> (r: Size)
        ensures
            r == self.pixel_size(),
    {
        self.size
    }

    /// The scale.
    pub fn scale(&self) -> (r: FloatBits)
        ensures
            r == self.own_scale(),
    {
        self.scale
    }

    /// The transform.
    pub fn transform(&self) -> (r: Transform)
        ensures
            r == self.own_transform(),
    {
        self.transform
    }
}

} // verus!
