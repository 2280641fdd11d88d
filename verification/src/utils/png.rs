//! Pictures.
use vstd::prelude::*;

verus! {

/// Why a picture could not be made.
#[verifier::external_type_specification]
#[verifier::external_body]
pub struct ExEncodingError(png::EncodingError);

/// The samples that make up a pixel.
#[derive(Clone, Copy, Debug, PartialEq, Eq, Structural)]
pub enum ColorType {
    Rgb,
    Rgba,
}

/// The number of bits in a sample.
#[derive(Clone, Copy, Debug, PartialEq, Eq, Structural)]
pub enum BitDepth {
    Eight,
    Sixteen,
}

impl ColorType {
    /// How many samples make up a pixel.
    pub open spec fn samples(self) -> int {
        match self {
            ColorType::Rgb => 3,
            ColorType::Rgba => 4,
        }
    }
}

impl BitDepth {
    /// How many bytes a sample takes.
    pub open spec fn bytes(self) -> int {
        match self {
            BitDepth::Eight => 1,
            BitDepth::Sixteen => 2,
        }
    }
}

/// How many bytes a row of pixels takes.
pub open spec fn row_bytes(width: u32, color: ColorType, depth: BitDepth) -> int {
    width * color.samples() * depth.bytes()
}

/// The file that holds a picture.
pub uninterp spec fn png_file(
    width: u32,
    height: u32,
    color: ColorType,
    depth: BitDepth,
    pixels: Seq<u8>,
) -> Seq<u8>;

/// Encodes a picture by `png::Encoder`, its `write_header` and the writer's `write_image_data`, into a
/// buffer, which no write fails on.
///
/// That succeeds if the picture is not empty and the pixels are just as many as its size asks for. What
/// the file then holds depends on nothing but the arguments. The lengths have to fit, because the
/// encoder computes them without looking.
#[verifier::external_body]
fn encode_png(
    width: u32,
    height: u32,
    color: ColorType,
    depth: BitDepth,
    pixels: &Vec<u8>,
) -> (r: Result<Vec<u8>, png::EncodingError>)
    requires
        (row_bytes(width, color, depth) + 1) * height <= usize::MAX,
        row_bytes(width, color, depth) + 1 <= usize::MAX,
    ensures
        (r is Ok) == (width > 0 && height > 0 && pixels@.len() == row_bytes(width, color, depth)
            * height),
        r matches Ok(file) ==> file@ == png_file(width, height, color, depth, pixels@),
{
    let mut file = Vec::new();
    let mut encoder = png::Encoder::new(&mut file, width, height);
    encoder.set_color(match color {
        ColorType::Rgb => png::ColorType::Rgb,
        ColorType::Rgba => png::ColorType::Rgba,
    });
    encoder.set_depth(match depth {
        BitDepth::Eight => png::BitDepth::Eight,
        BitDepth::Sixteen => png::BitDepth::Sixteen,
    });
    encoder.write_header()?.write_image_data(pixels)?;
    Ok(file)
}

/// Why a picture could not be made.
#[derive(Clone, Copy, Debug, PartialEq, Eq, Structural)]
pub enum PictureError {
    /// The picture is empty, or its pixels are not as many as its size asks for.
    WrongSize,
}

/// The file that holds a picture of pixels with one byte each for red, green, blue and opacity.
pub fn write_png_rgba8(width: u32, height: u32, pixels: &Vec<u8>) -> (r: Result<Vec<u8>, PictureError>)
    requires
        (4 * width + 1) * height <= usize::MAX,
        4 * width + 1 <= usize::MAX,
    ensures
        match r {
            Ok(file) => {
                &&& width > 0
                &&& height > 0
                &&& pixels@.len() == 4 * width * height
                &&& file@ == png_file(width, height, ColorType::Rgba, BitDepth::Eight, pixels@)
            },
            Err(_) => width == 0 || height == 0 || pixels@.len() != 4 * width * height,
        },
{
    assert(row_bytes(width, ColorType::Rgba, BitDepth::Eight) == 4 * width) by (nonlinear_arith);
    match encode_png(width, height, ColorType::Rgba, BitDepth::Eight, pixels) {
        Ok(file) => Ok(file),
        Err(_) => Err(PictureError::WrongSize),
    }
}

} // verus!
