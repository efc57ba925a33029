//! Driver core for a quad-color electrophoretic display panel.
//!
//! The crate models the two hard parts of such a driver: a bit-packed
//! framebuffer that maps pixel coordinates to 2-bit color fields, and the
//! panel's command protocol, recorded as a sequence of bus operations that a
//! transport layer replays over the physical bus.

pub mod color;
pub mod graphics;
pub mod interface;
pub mod traits;
pub mod yrd0750ryf665f60;

use vstd::prelude::*;

verus! {

/// Number of bytes needed for a packed raster of `width` bits per row,
/// rounded up to whole bytes, over `height` rows.
pub fn buffer_len(width: usize, height: usize) -> (len: usize)
    requires
        width + 7 <= usize::MAX,
        (width as int + 7) / 8 * height as int <= usize::MAX as int,
    ensures
        len as int == (width as int + 7) / 8 * height as int,
{
    (width + 7) / 8 * height
}

} // verus!
