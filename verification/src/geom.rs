//! Scene geometry: fixed-point coordinates, the view box, and the ceiling
//! that maps a view-box size to whole device pixels.
//!
//! Scene coordinates are held in fixed point, `COORD_ONE` units per scene
//! unit (one scene unit maps to one output pixel).  The unverified shell
//! converts the external engine's floating-point view box into this
//! representation before calling into the core.

use vstd::prelude::*;

verus! {

/// Fixed-point coordinate units per scene unit (and so per output pixel).
pub const COORD_ONE: i64 = 65536;

/// Largest output dimension, in pixels, that the engine accepts on one axis.
/// Keeps every byte count (`width * height * 4`) within `usize` and every
/// padded size within `u32`.
pub const MAX_PIXEL_DIM: u32 = 16384;

/// Largest coordinate magnitude the engine accepts, in coordinate units:
/// `MAX_PIXEL_DIM` whole scene units.
pub const MAX_COORD: i64 = 1073741824;

/// Ceiling of `v` coordinate units, in whole pixels, for `v >= 0`.
pub open spec fn ceil_px(v: int) -> int {
    (v + 65535) / 65536
}

/// The ceiling really is the least whole-pixel count covering `v`:
/// `ceil_px(v)` pixels cover `v` units, one pixel fewer does not, and an
/// exact multiple of a pixel ceils to itself.
pub proof fn lemma_ceil_px(v: int)
    requires
        0 <= v,
    ensures
        0 <= ceil_px(v),
        ceil_px(v) * 65536 >= v,
        (ceil_px(v) - 1) * 65536 < v,
        v % 65536 == 0 ==> ceil_px(v) == v / 65536,
        v == 0 ==> ceil_px(v) == 0,
{
    let q = (v + 65535) / 65536;
    assert(q * 65536 >= v && (q - 1) * 65536 < v) by (nonlinear_arith)
        requires 0 <= v && q == (v + 65535) / 65536,
    ;
    assert(v % 65536 == 0 ==> q == v / 65536) by (nonlinear_arith)
        requires 0 <= v && q == (v + 65535) / 65536,
    ;
}

/// Ceiling of a non-negative coordinate value, in whole pixels.
pub fn ceil_to_pixels(v: i64) -> (r: u32)
    requires
        0 <= v <= MAX_COORD,
    ensures
        r == ceil_px(v as int),
        r <= MAX_PIXEL_DIM,
{
    let u: u64 = v as u64;
    ((u + 65535) / 65536) as u32
}

/// The rectangle of scene space that maps onto the output image: an origin
/// and a non-negative size, all in fixed-point coordinate units.
#[derive(Clone, Copy, Debug, PartialEq, Eq, Structural)]
pub struct ViewBox {
    pub origin_x: i64,
    pub origin_y: i64,
    pub width: i64,
    pub height: i64,
}

impl ViewBox {
    /// A view box the engine accepts: a non-negative size and every
    /// coordinate within the supported range.  Anything else stands for a
    /// degenerate box (negative or non-finite in the external form) and is
    /// rejected rather than rendered.
    pub open spec fn is_valid(self) -> bool {
        &&& 0 <= self.width <= MAX_COORD
        &&& 0 <= self.height <= MAX_COORD
        &&& -MAX_COORD <= self.origin_x <= MAX_COORD
        &&& -MAX_COORD <= self.origin_y <= MAX_COORD
    }

    /// Decides whether this view box is one the engine accepts.
    pub fn check_valid(&self) -> (r: bool)
        ensures
            r == self.is_valid(),
    {
        0 <= self.width && self.width <= MAX_COORD
            && 0 <= self.height && self.height <= MAX_COORD
            && -MAX_COORD <= self.origin_x && self.origin_x <= MAX_COORD
            && -MAX_COORD <= self.origin_y && self.origin_y <= MAX_COORD
    }
}

} // verus!
