//! The panel's four-symbol color space and its 2-bit packing.
//!
//! Every pixel is stored as a 2-bit field inside a byte; four pixels share a
//! byte. Encoding and decoding are total: each color has exactly one code and
//! every 2-bit code names a color.

use vstd::prelude::*;

verus! {

/// Black/white/red/yellow display color.
#[derive(Clone, Copy, PartialEq, Eq, Structural, Debug)]
pub enum QuadColor {
    /// Black, code `0b00`.
    Black,
    /// White, code `0b01`; the panel's default background.
    White,
    /// Red, code `0b11`.
    Red,
    /// Yellow, code `0b10`.
    Yellow,
}

/// Direction in which pixel fields are laid out inside a byte.
///
/// The physical panel packs the first pixel of a byte into the high bits,
/// while raster targets that index from bit zero pack it into the low bits.
/// The direction is an explicit build parameter of the framebuffer, never a
/// hardcoded constant.
#[derive(Clone, Copy, PartialEq, Eq, Structural, Debug)]
pub enum BitOrder {
    /// First pixel of a byte occupies the most significant bits.
    MsbFirst,
    /// First pixel of a byte occupies the least significant bits.
    LsbFirst,
}

/// The 2-bit code of a color.
pub open spec fn code_of(c: QuadColor) -> u8 {
    match c {
        QuadColor::Black => 0b00,
        QuadColor::White => 0b01,
        QuadColor::Yellow => 0b10,
        QuadColor::Red => 0b11,
    }
}

/// The color named by a code. Total: codes above `0b11` fall back to black,
/// exactly as the decoder does.
pub open spec fn decode_spec(bits: u8) -> QuadColor {
    if bits == 0b01 {
        QuadColor::White
    } else if bits == 0b10 {
        QuadColor::Yellow
    } else if bits == 0b11 {
        QuadColor::Red
    } else {
        QuadColor::Black
    }
}

/// Bit shift of the pixel field for the pixel at column `pos`, under the
/// given layout direction. Always one of 0, 2, 4, 6.
pub open spec fn shift_for(order: BitOrder, pos: int) -> u8 {
    match order {
        BitOrder::LsbFirst => (2 * (pos % 4)) as u8,
        BitOrder::MsbFirst => (6 - 2 * (pos % 4)) as u8,
    }
}

/// Whether `s` is the shift of one of the four pixel fields of a byte.
pub open spec fn is_field_shift(s: u8) -> bool {
    s == 0 || s == 2 || s == 4 || s == 6
}

/// The 2-bit field at shift `shift` of byte `b`.
pub open spec fn field_get(b: u8, shift: u8) -> u8 {
    (b >> shift) & 0b11
}

/// Byte `b` with the 2-bit field at shift `shift` replaced by `code`.
pub open spec fn field_set(b: u8, shift: u8, code: u8) -> u8 {
    (b & !(0b11u8 << shift)) | (code << shift)
}

/// One byte that repeats a color's code across all four pixel fields.
pub open spec fn fill_byte_spec(c: QuadColor) -> u8 {
    match c {
        QuadColor::Black => 0x00,
        QuadColor::White => 0x55,
        QuadColor::Yellow => 0xAA,
        QuadColor::Red => 0xFF,
    }
}

impl QuadColor {
    /// The byte a freshly constructed framebuffer is filled with: the default
    /// color (white, `0b01`) repeated across every pixel field, `0x55`.
    pub fn default_color_byte() -> (r: u8)
        ensures
            r == fill_byte_spec(QuadColor::White),
            r == 0x55,
    {
        0x55
    }

    /// One byte of this color repeated across all four pixel fields, the byte
    /// streamed by bulk clears.
    pub fn fill_byte(&self) -> (r: u8)
        ensures
            r == fill_byte_spec(*self),
    {
        match self {
            QuadColor::Black => 0x00,
            QuadColor::White => 0x55,
            QuadColor::Yellow => 0xAA,
            QuadColor::Red => 0xFF,
        }
    }

    /// Mask-and-bits pair that writes this color into the pixel field at
    /// column `pos`: `byte & mask | bits` replaces exactly that field.
    pub fn bitmask(&self, order: BitOrder, pos: u32) -> (r: (u8, u16))
        ensures
            r.0 == !(0b11u8 << shift_for(order, pos as int)),
            r.1 == (code_of(*self) << shift_for(order, pos as int)) as u16,
            r.1 < 0x100,
    {
        let shift: u8 = match order {
            BitOrder::LsbFirst => ((pos % 4) * 2) as u8,
            BitOrder::MsbFirst => (6 - (pos % 4) * 2) as u8,
        };
        assert(shift == shift_for(order, pos as int));
        let mask: u8 = !(0b11u8 << shift);
        let code: u8 = match self {
            QuadColor::Black => 0b00,
            QuadColor::White => 0b01,
            QuadColor::Yellow => 0b10,
            QuadColor::Red => 0b11,
        };
        assert((code << shift) < 0x100) by (bit_vector)
            requires
                code <= 3 && (shift == 0 || shift == 2 || shift == 4 || shift == 6),
        ;
        let value: u16 = (code << shift) as u16;
        (mask, value)
    }

    /// The color named by a 2-bit code; codes above `0b11` decode to black.
    pub fn from_bits(bits: u8) -> (r: Self)
        ensures
            r == decode_spec(bits),
    {
        match bits {
            0b01 => QuadColor::White,
            0b10 => QuadColor::Yellow,
            0b11 => QuadColor::Red,
            _ => QuadColor::Black,
        }
    }
}

/// The color a red/green/blue triple maps to: pure black and pure white map
/// to their own symbols, pure yellow to yellow, and everything else to red.
pub open spec fn from_rgb_spec(r: u8, g: u8, b: u8) -> QuadColor {
    if r == 0 && g == 0 && b == 0 {
        QuadColor::Black
    } else if r == 255 && g == 255 && b == 255 {
        QuadColor::White
    } else if r == 255 && g == 255 && b == 0 {
        QuadColor::Yellow
    } else {
        QuadColor::Red
    }
}

/// The red/green/blue triple a color renders as on a non-hardware target.
pub open spec fn rgb_of_spec(c: QuadColor) -> (u8, u8, u8) {
    match c {
        QuadColor::Black => (10, 10, 10),
        QuadColor::White => (240, 240, 240),
        QuadColor::Yellow => (240, 240, 100),
        QuadColor::Red => (200, 50, 50),
    }
}

impl QuadColor {
    /// The display color nearest a red/green/blue triple: pure black,
    /// white and yellow map to their own symbols, everything else to red.
    pub fn from_rgb(r: u8, g: u8, b: u8) -> (c: Self)
        ensures
            c == from_rgb_spec(r, g, b),
    {
        if r == 0 && g == 0 && b == 0 {
            QuadColor::Black
        } else if r == 255 && g == 255 && b == 255 {
            QuadColor::White
        } else if r == 255 && g == 255 && b == 0 {
            QuadColor::Yellow
        } else {
            QuadColor::Red
        }
    }

    /// The red/green/blue triple this color renders as on a non-hardware
    /// target.
    pub fn rgb_components(&self) -> (rgb: (u8, u8, u8))
        ensures
            rgb == rgb_of_spec(*self),
    {
        match self {
            QuadColor::Black => (10, 10, 10),
            QuadColor::White => (240, 240, 240),
            QuadColor::Yellow => (240, 240, 100),
            QuadColor::Red => (200, 50, 50),
        }
    }
}

impl Default for QuadColor {
    /// The default color is white.
    fn default() -> (r: Self)
        ensures
            r == QuadColor::White,
    {
        QuadColor::White
    }
}

/// Color type used by a framebuffer: how many bits one pixel takes, how a
/// color is written into a byte, and how a field decodes back to a color.
pub trait ColorType: Sized {
    /// Number of bits encoding one pixel.
    fn bits_per_pixel() -> usize;

    /// Mask-and-bits pair that writes this color into the pixel field at
    /// column `pos` of its byte; `byte & mask | bits` replaces exactly that
    /// field.
    fn bitmask(&self, order: BitOrder, pos: u32) -> (u8, u16);

    /// The color encoded by a field's bits.
    fn from_bits(bits: u8) -> Self;
}

impl ColorType for QuadColor {
    fn bits_per_pixel() -> usize {
        2
    }

    fn bitmask(&self, order: BitOrder, pos: u32) -> (u8, u16) {
        QuadColor::bitmask(self, order, pos)
    }

    fn from_bits(bits: u8) -> Self {
        QuadColor::from_bits(bits)
    }
}

/// The color mapping is a bijection between the four colors and the four
/// 2-bit codes: decoding an encoded color gives the color back, and encoding
/// a decoded 2-bit value gives the value back.
pub proof fn lemma_color_code_bijective()
    ensures
        forall|c: QuadColor| decode_spec(#[trigger] code_of(c)) == c,
        forall|b: u8| b <= 3 ==> code_of(#[trigger] decode_spec(b)) == b,
{
}

/// Every pixel field of a color's fill byte holds that color's code: a
/// buffer bulk-filled with `fill_byte` reads back as that color everywhere.
pub proof fn lemma_fill_byte_uniform(c: QuadColor, s: u8)
    requires
        is_field_shift(s),
    ensures
        field_get(fill_byte_spec(c), s) == code_of(c),
{
    let b = fill_byte_spec(c);
    let k = code_of(c);
    assert(((b == 0x00 && k == 0) || (b == 0x55 && k == 1) || (b == 0xAA && k == 2) || (b == 0xFF
        && k == 3)) && (s == 0 || s == 2 || s == 4 || s == 6) ==> (b >> s) & 0b11 == k)
        by (bit_vector);
}

} // verus!
