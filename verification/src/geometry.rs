//! Rectangles, sizes and the words of a message parameter.

use vstd::prelude::*;

verus! {

/// A rectangle by its edges, as the operating system reports it.
#[derive(Debug, Copy, Clone, PartialEq, Eq, Structural)]
pub struct Rect {
    pub left: i32,
    pub top: i32,
    pub right: i32,
    pub bottom: i32,
}

/// A size in physical pixels.
#[derive(Debug, Copy, Clone, PartialEq, Eq, Structural)]
pub struct PhysicalSize {
    pub width: u32,
    pub height: u32,
}

/// The length of the span from `from` to `to`, and 0 if `to` lies before
/// `from`.
pub open spec fn span(from: int, to: int) -> int {
    if to > from {
        to - from
    } else {
        0
    }
}

impl Rect {
    /// Width and height of the rectangle.
    pub open spec fn extent(self) -> PhysicalSize {
        PhysicalSize {
            width: span(self.left as int, self.right as int) as u32,
            height: span(self.top as int, self.bottom as int) as u32,
        }
    }

    /// The distance from the left to the right edge; 0 if they are crossed.
    pub fn width(&self) -> (w: u32)
        ensures
            w == span(self.left as int, self.right as int),
    {
        if self.right > self.left {
            (self.right as i64 - self.left as i64) as u32
        } else {
            0
        }
    }

    /// The distance from the top to the bottom edge; 0 if they are crossed.
    pub fn height(&self) -> (h: u32)
        ensures
            h == span(self.top as int, self.bottom as int),
    {
        if self.bottom > self.top {
            (self.bottom as i64 - self.top as i64) as u32
        } else {
            0
        }
    }

    /// Width and height together.
    pub fn size(&self) -> (size: PhysicalSize)
        ensures
            size == self.extent(),
            size.width == span(self.left as int, self.right as int),
            size.height == span(self.top as int, self.bottom as int),
    {
        PhysicalSize { width: self.width(), height: self.height() }
    }
}

/// The larger of two resolutions, and 0 if both are negative.
pub open spec fn larger_dpi(dpi_x: int, dpi_y: int) -> int {
    if dpi_x >= dpi_y && dpi_x >= 0 {
        dpi_x
    } else if dpi_y >= 0 {
        dpi_y
    } else {
        0
    }
}

/// The resolution of a display from its horizontal and vertical one.
pub fn effective_dpi(dpi_x: i32, dpi_y: i32) -> (dpi: u32)
    ensures
        dpi == larger_dpi(dpi_x as int, dpi_y as int),
        dpi >= dpi_x,
        dpi >= dpi_y,
{
    if dpi_x >= dpi_y && dpi_x >= 0 {
        dpi_x as u32
    } else if dpi_y >= 0 {
        dpi_y as u32
    } else {
        0
    }
}

/// The largest extent the renderer can be told.
pub const MAX_DEVICE_PIXELS: i32 = 0x7fff_ffff;

/// A length in physical pixels as the renderer takes it: the same, but no
/// more than the renderer can be told.
pub open spec fn device_pixels(length: u32) -> i32 {
    if length > MAX_DEVICE_PIXELS {
        MAX_DEVICE_PIXELS
    } else {
        length as i32
    }
}

/// Converts a length in physical pixels to what the renderer takes.
pub fn to_device_pixels(length: u32) -> (pixels: i32)
    ensures
        pixels == device_pixels(length),
        0 <= pixels,
        length <= MAX_DEVICE_PIXELS ==> pixels == length,
{
    if length > MAX_DEVICE_PIXELS as u32 {
        MAX_DEVICE_PIXELS
    } else {
        length as i32
    }
}

/// Bits 0 to 15 of a message parameter.
pub open spec fn low_word(bits: usize) -> u16 {
    (bits % 0x10000) as u16
}

/// Bits 16 to 31 of a message parameter.
pub open spec fn high_word(bits: usize) -> u16 {
    ((bits / 0x10000) % 0x10000) as u16
}

/// A word read as a signed number in two's complement.
pub open spec fn signed(word: u16) -> i32 {
    if word >= 0x8000 {
        (word - 0x10000) as i32
    } else {
        word as i32
    }
}

/// Reads bits 0 to 15 of a message parameter.
pub fn get_low_word(bits: usize) -> (word: u16)
    ensures
        word == low_word(bits),
{
    (bits % 0x10000) as u16
}

/// Reads bits 16 to 31 of a message parameter.
pub fn get_high_word(bits: usize) -> (word: u16)
    ensures
        word == high_word(bits),
{
    ((bits / 0x10000) % 0x10000) as u16
}

/// Reads a word as a signed number.
pub fn to_signed(word: u16) -> (value: i32)
    ensures
        value == signed(word),
        -0x8000 <= value < 0x8000,
{
    if word >= 0x8000 {
        word as i32 - 0x10000
    } else {
        word as i32
    }
}

/// The horizontal position in the parameter of a pointer message.
pub fn get_x_lparam(bits: usize) -> (x: i32)
    ensures
        x == signed(low_word(bits)),
{
    to_signed(get_low_word(bits))
}

/// The vertical position in the parameter of a pointer message.
pub fn get_y_lparam(bits: usize) -> (y: i32)
    ensures
        y == signed(high_word(bits)),
{
    to_signed(get_high_word(bits))
}

/// The two words of a parameter determine its lower 32 bits.
pub proof fn lemma_words_compose(bits: usize)
    ensures
        low_word(bits) + 0x10000 * high_word(bits) == (bits as int) % 0x1_0000_0000int,
{
    let b = bits as int;
    assert(b % 0x1_0000_0000int == (b % 0x10000) + 0x10000 * ((b / 0x10000) % 0x10000)) by (
        nonlinear_arith)
        requires
            b >= 0,
    ;
}

/// Positions left of or above the client area come out negative.
pub proof fn lemma_signed_range(word: u16)
    ensures
        -0x8000 <= signed(word) < 0x8000,
        signed(word) < 0 <==> word >= 0x8000,
        signed(word) >= 0 ==> signed(word) == word,
{
}

} // verus!
