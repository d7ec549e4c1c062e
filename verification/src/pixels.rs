//! The rasterization result: an exact-size RGBA8 pixel buffer, and the
//! packaging of raw GPU readback bytes into one.

use vstd::prelude::*;
use crate::geom::MAX_PIXEL_DIM;

verus! {

/// A color with 8-bit channels, `255` standing for full intensity.
#[derive(Clone, Copy, Debug, PartialEq, Eq, Structural)]
pub struct ColorU8 {
    pub r: u8,
    pub g: u8,
    pub b: u8,
    pub a: u8,
}

/// What the GPU readback handed back: either an 8-bit-per-channel RGBA byte
/// buffer, or some other texture format, which the engine does not support.
pub enum ReadbackData {
    Rgba8(Vec<u8>),
    OtherFormat,
}

/// An RGBA8 image of exactly `width` by `height` pixels: four bytes per
/// pixel in R, G, B, A order, rows top first, row stride `width * 4` with no
/// padding.
#[derive(Clone, Debug, PartialEq, Eq)]
pub struct RgbaImage {
    pub width: u32,
    pub height: u32,
    pub data: Vec<u8>,
}

impl RgbaImage {
    /// The buffer holds exactly four bytes for each of the
    /// `width * height` pixels.
    pub open spec fn wf(self) -> bool {
        self.data@.len() == self.width * self.height * 4
    }

    /// Builds an image from a raw buffer; succeeds exactly when the buffer
    /// length matches the dimensions.
    pub fn from_raw(width: u32, height: u32, data: Vec<u8>) -> (r: Option<RgbaImage>)
        requires
            width <= MAX_PIXEL_DIM,
            height <= MAX_PIXEL_DIM,
        ensures
            r is Some <==> data@.len() == width * height * 4,
            r matches Some(img) ==> {
                &&& img.width == width
                &&& img.height == height
                &&& img.data == data
                &&& img.wf()
            },
    {
        proof {
            assert((width as int) * (height as int) * 4 <= 1073741824) by (nonlinear_arith)
                requires width <= MAX_PIXEL_DIM && height <= MAX_PIXEL_DIM,
            ;
        }
        let expected: usize = (width as usize) * (height as usize) * 4;
        if data.len() == expected {
            Some(RgbaImage { width, height, data })
        } else {
            None
        }
    }
}

/// Law: the buffer of a well-formed image is exactly four bytes per pixel:
/// its length is `width * height * 4`, divides evenly into four-byte RGBA8
/// cells, and yields exactly `width * height` of them.
pub proof fn lemma_buffer_layout(img: RgbaImage)
    requires
        img.wf(),
    ensures
        img.data@.len() == img.width * img.height * 4,
        img.data@.len() % 4 == 0,
        img.data@.len() / 4 == img.width * img.height,
{
    let n = img.width * img.height;
    assert((n * 4) % 4 == 0 && (n * 4) / 4 == n) by (nonlinear_arith);
}

} // verus!
