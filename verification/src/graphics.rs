//! Bit-packed framebuffer for the quad-color panel.
//!
//! The buffer is a row-major raster: each row takes `width * 2` bits rounded
//! up to whole bytes, and each pixel is a 2-bit field inside its byte. The
//! store is sized once at construction and never reallocated.

use vstd::prelude::*;

use crate::color::BitOrder;
use crate::color::QuadColor;
use crate::color::code_of;
use crate::color::decode_spec;
use crate::color::field_get;
use crate::color::field_set;
use crate::color::fill_byte_spec;
use crate::color::is_field_shift;
use crate::color::shift_for;

verus! {

/// Bits per pixel of the quad-color space.
pub open spec fn bits_per_pixel() -> int {
    2
}

/// Bytes per row: `width * bpp` bits rounded up to a whole byte.
pub open spec fn line_bytes_spec(width: int, bpp: int) -> int {
    (width * bpp + 7) / 8
}

/// Bytes per row of a raster `width` pixels wide at `bits_per_pixel` bits
/// each, padding bits included.
fn line_bytes(width: u32, bits_per_pixel: usize) -> (r: usize)
    requires
        width as int * bits_per_pixel as int + 7 <= usize::MAX as int,
    ensures
        r as int == line_bytes_spec(width as int, bits_per_pixel as int),
{
    (width as usize * bits_per_pixel + 7) / 8
}

/// Mathematical model of a [`Display`]: its dimensions, field layout
/// direction, and the raster bytes.
pub struct DisplayView {
    /// Width in pixels.
    pub width: u32,
    /// Height in pixels.
    pub height: u32,
    /// Direction in which pixel fields are packed into bytes.
    pub bit_order: BitOrder,
    /// The raster bytes, row-major.
    pub buffer: Seq<u8>,
}

impl DisplayView {
    /// Shape invariant: nonempty dimensions, rows that fit the machine, and
    /// a buffer of exactly one row's bytes per row.
    pub open spec fn wf(self) -> bool {
        &&& self.width >= 1
        &&& self.height >= 1
        &&& self.width as int * bits_per_pixel() + 7 <= usize::MAX as int
        &&& self.buffer.len() == line_bytes_spec(self.width as int, bits_per_pixel())
            * self.height as int
        &&& self.buffer.len() <= usize::MAX
    }

    /// Whether `(x, y)` lies on the panel.
    pub open spec fn in_range(self, x: int, y: int) -> bool {
        0 <= x < self.width as int && 0 <= y < self.height as int
    }

    /// Index of the byte holding pixel `(x, y)`.
    pub open spec fn byte_index(self, x: int, y: int) -> int {
        x * bits_per_pixel() / 8 + y * line_bytes_spec(self.width as int, bits_per_pixel())
    }

    /// The raw 2-bit field of pixel `(x, y)`.
    pub open spec fn pixel_field(self, x: int, y: int) -> u8 {
        field_get(self.buffer[self.byte_index(x, y)], shift_for(self.bit_order, x))
    }

    /// The color stored at pixel `(x, y)`.
    pub open spec fn pixel_at(self, x: int, y: int) -> QuadColor {
        decode_spec(self.pixel_field(x, y))
    }
}

/// What writing one pixel does to the model: nothing at all off the panel,
/// and on the panel a single byte has the pixel's field replaced by the
/// color's code.
pub open spec fn set_pixel_spec(v: DisplayView, x: int, y: int, c: QuadColor) -> DisplayView {
    if v.in_range(x, y) {
        let idx = v.byte_index(x, y);
        DisplayView {
            buffer: v.buffer.update(
                idx,
                field_set(v.buffer[idx], shift_for(v.bit_order, x), code_of(c)),
            ),
            ..v
        }
    } else {
        v
    }
}

/// Fixed-size display buffer: a bit-packed raster store that owns its bytes
/// and is mutated only through pixel writes.
pub struct Display {
    width: u32,
    height: u32,
    bit_order: BitOrder,
    buffer: Vec<u8>,
}

impl View for Display {
    type V = DisplayView;

    closed spec fn view(&self) -> DisplayView {
        DisplayView {
            width: self.width,
            height: self.height,
            bit_order: self.bit_order,
            buffer: self.buffer@,
        }
    }
}

impl Display {
    /// A fresh buffer of the exact computed length, every byte holding the
    /// default color's repeated pattern, so every pixel reads back white.
    pub fn new(width: u32, height: u32, bit_order: BitOrder) -> (r: Display)
        requires
            width >= 1,
            height >= 1,
            width as int * bits_per_pixel() + 7 <= usize::MAX as int,
            line_bytes_spec(width as int, bits_per_pixel()) * height as int <= usize::MAX as int,
        ensures
            r@.width == width,
            r@.height == height,
            r@.bit_order == bit_order,
            r@.wf(),
            r@.buffer =~= Seq::new(r@.buffer.len(), |i: int| 0x55u8),
    {
        let lb = line_bytes(width, 2);
        proof {
            assert(lb as int * height as int == line_bytes_spec(width as int, 2) * height as int);
        }
        let len = lb * (height as usize);
        let mut buffer: Vec<u8> = Vec::new();
        let mut i: usize = 0;
        while i < len
            invariant
                i <= len,
                buffer@.len() == i,
                forall|k: int| 0 <= k < i ==> buffer@[k] == 0x55u8,
            decreases len - i,
        {
            buffer.push(0x55);
            i = i + 1;
        }
        Display { width, height, bit_order, buffer }
    }

    /// Width in pixels.
    pub fn width(&self) -> (r: u32)
        ensures
            r == self@.width,
    {
        self.width
    }

    /// Height in pixels.
    pub fn height(&self) -> (r: u32)
        ensures
            r == self@.height,
    {
        self.height
    }

    /// Read-only view of the backing bytes, for transfer to the panel;
    /// never copies.
    pub fn buffer(&self) -> (r: &[u8])
        ensures
            r@ == self@.buffer,
    {
        self.buffer.as_slice()
    }

    /// Write one pixel. Coordinates off the panel are a deliberate no-op,
    /// not an error; on the panel, exactly the addressed 2-bit field
    /// changes.
    pub fn set_pixel(&mut self, x: i32, y: i32, color: QuadColor)
        requires
            old(self)@.wf(),
        ensures
            final(self)@ == set_pixel_spec(old(self)@, x as int, y as int, color),
            final(self)@.wf(),
    {
        if x < 0 || y < 0 {
            return ;
        }
        let xu = x as u32;
        let yu = y as u32;
        if xu >= self.width || yu >= self.height {
            return ;
        }
        proof {
            lemma_byte_index_bounds(self@, x as int, y as int);
        }
        let lb = line_bytes(self.width, 2);
        let idx = (xu as usize) * 2 / 8 + (yu as usize) * lb;
        let (mask, bits) = color.bitmask(self.bit_order, xu);
        let b = self.buffer[idx];
        let nb = b & mask | bits as u8;
        proof {
            let sh = shift_for(self@.bit_order, x as int);
            assert(bits as u8 == (code_of(color) << sh));
            assert(nb == field_set(b, sh, code_of(color)));
        }
        self.buffer.set(idx, nb);
    }
}

/// The byte holding an on-panel pixel lies inside the buffer, and its field
/// shift is one of the four field positions of a byte.
pub proof fn lemma_byte_index_bounds(v: DisplayView, x: int, y: int)
    requires
        v.wf(),
        v.in_range(x, y),
    ensures
        0 <= v.byte_index(x, y) < v.buffer.len(),
        is_field_shift(shift_for(v.bit_order, x)),
{
    let lb = line_bytes_spec(v.width as int, bits_per_pixel());
    assert(x * 2 / 8 >= 0);
    assert(x * 2 / 8 < lb) by (nonlinear_arith)
        requires
            0 <= x < v.width as int,
            lb == (v.width as int * 2 + 7) / 8,
    ;
    assert(0 <= y * lb && y * lb + lb <= v.height as int * lb) by (nonlinear_arith)
        requires
            0 <= y < v.height as int,
            lb > 0,
    ;
    assert(v.height as int * lb == v.buffer.len()) by (nonlinear_arith)
        requires
            v.buffer.len() == lb * v.height as int,
    ;
    assert(v.byte_index(x, y) == x * 2 / 8 + y * lb);
    assert(x * 2 / 8 + y * lb < lb + y * lb);
    assert(0 <= x % 4 < 4);
}

/// A pixel write off the panel leaves every byte of the buffer unchanged.
pub proof fn lemma_set_pixel_out_of_range(v: DisplayView, x: int, y: int, c: QuadColor)
    requires
        !v.in_range(x, y),
    ensures
        set_pixel_spec(v, x, y, c) == v,
{
}

/// Writing a color and then decoding the same pixel's field returns the
/// written color, for every on-panel coordinate and all four colors.
pub proof fn lemma_set_pixel_round_trip(v: DisplayView, x: int, y: int, c: QuadColor)
    requires
        v.wf(),
        v.in_range(x, y),
    ensures
        set_pixel_spec(v, x, y, c).pixel_at(x, y) == c,
{
    lemma_byte_index_bounds(v, x, y);
    let sh = shift_for(v.bit_order, x);
    let b = v.buffer[v.byte_index(x, y)];
    let k = code_of(c);
    assert(k <= 3 && (sh == 0 || sh == 2 || sh == 4 || sh == 6) ==> ((b & !(0b11u8 << sh)) | (k
        << sh)) >> sh & 0b11 == k) by (bit_vector);
}

/// A pixel write changes no other pixel: every other on-panel coordinate
/// keeps its exact 2-bit field.
pub proof fn lemma_set_pixel_preserves_others(
    v: DisplayView,
    x: int,
    y: int,
    c: QuadColor,
    i: int,
    j: int,
)
    requires
        v.wf(),
        v.in_range(x, y),
        v.in_range(i, j),
        !(i == x && j == y),
    ensures
        set_pixel_spec(v, x, y, c).pixel_field(i, j) == v.pixel_field(i, j),
        set_pixel_spec(v, x, y, c).pixel_at(i, j) == v.pixel_at(i, j),
{
    lemma_byte_index_bounds(v, x, y);
    lemma_byte_index_bounds(v, i, j);
    let lb = line_bytes_spec(v.width as int, bits_per_pixel());
    let w = set_pixel_spec(v, x, y, c);
    if v.byte_index(i, j) != v.byte_index(x, y) {
        assert(w.buffer[v.byte_index(i, j)] == v.buffer[v.byte_index(i, j)]);
    } else {
        // Same byte: the row and the byte-in-row coincide, so the columns
        // differ only in their position inside the byte.
        assert(x * 2 / 8 < lb) by (nonlinear_arith)
            requires
                0 <= x < v.width as int,
                lb == (v.width as int * 2 + 7) / 8,
        ;
        assert(i * 2 / 8 < lb) by (nonlinear_arith)
            requires
                0 <= i < v.width as int,
                lb == (v.width as int * 2 + 7) / 8,
        ;
        assert(j == y && i * 2 / 8 == x * 2 / 8) by (nonlinear_arith)
            requires
                0 <= x * 2 / 8 < lb,
                0 <= i * 2 / 8 < lb,
                x * 2 / 8 + y * lb == i * 2 / 8 + j * lb,
        ;
        assert(i != x);
        assert(i % 4 != x % 4) by (nonlinear_arith)
            requires
                i >= 0,
                x >= 0,
                i != x,
                i * 2 / 8 == x * 2 / 8,
        ;
        let sh = shift_for(v.bit_order, x);
        let si = shift_for(v.bit_order, i);
        assert(si != sh);
        let b = v.buffer[v.byte_index(x, y)];
        let k = code_of(c);
        assert((k <= 3 && (sh == 0 || sh == 2 || sh == 4 || sh == 6) && (si == 0 || si == 2 || si
            == 4 || si == 6) && si != sh) ==> ((b & !(0b11u8 << sh)) | (k << sh)) >> si & 0b11 == b
            >> si & 0b11) by (bit_vector);
    }
}

/// In a buffer bulk-filled with one color's fill byte, every on-panel pixel
/// decodes to that color; a fresh display therefore reads back white
/// everywhere.
pub proof fn lemma_uniform_fill_reads_back(v: DisplayView, x: int, y: int, c: QuadColor)
    requires
        v.wf(),
        v.in_range(x, y),
        forall|k: int| 0 <= k < v.buffer.len() ==> v.buffer[k] == fill_byte_spec(c),
    ensures
        v.pixel_at(x, y) == c,
{
    lemma_byte_index_bounds(v, x, y);
    crate::color::lemma_fill_byte_uniform(c, shift_for(v.bit_order, x));
}

} // verus!
