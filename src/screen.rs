use vstd::prelude::*;

use crate::memory::VIDEO_SIZE;

verus! {

/// Width of the picture in pixels: the CRT is turned on its side, so this is the
/// number of 32-byte rows of the video buffer.
pub const SCREEN_WIDTH: usize = 224;

/// Height of the picture in pixels.
pub const SCREEN_HEIGHT: usize = 256;

/// Size of the picture and the factor by which each pixel is drawn.
#[derive(Debug, Clone, Copy, PartialEq, Eq, Structural)]
pub struct Resolution {
    pub width: usize,
    pub height: usize,
    pub scale: usize,
}

impl Resolution {
    pub fn new(width: usize, height: usize, scale: usize) -> (r: Resolution)
        ensures
            r == (Resolution { width, height, scale }),
    {
        Resolution { width, height, scale }
    }
}

/// Where bit `bit` of video byte `i` shows: column `i / 32`, and rows counted up
/// from the bottom of the picture, eight to a byte.
pub open spec fn pixel_of(i: int, bit: int) -> (int, int) {
    (i / 32, 255 - ((i % 32) * 8 + bit))
}

/// Whether bit `bit` of `byte` is set.
pub open spec fn lit(byte: u8, bit: u8) -> bool {
    (byte >> bit) & 1 == 1
}

/// Column and row of the pixel that bit `bit` of video byte `i` draws.
pub fn pixel_position(i: usize, bit: usize) -> (r: (usize, usize))
    requires
        i < VIDEO_SIZE,
        bit < 8,
    ensures
        r.0 < SCREEN_WIDTH,
        r.1 < SCREEN_HEIGHT,
        (r.0 as int, r.1 as int) == pixel_of(i as int, bit as int),
{
    (i / 32, 255 - ((i % 32) * 8 + bit))
}

/// Whether bit `bit` of `byte` draws a lit pixel.
pub fn is_lit(byte: u8, bit: u8) -> (r: bool)
    requires
        bit < 8,
    ensures
        r == lit(byte, bit),
{
    (byte >> bit) & 1 == 1
}

} // verus!
