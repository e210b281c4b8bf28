//! Rectangular screen regions.

use vstd::prelude::*;

verus! {

/// A simple struct representing a rectangular area.
///
/// An area used for drawing is expected to have `w >= 1` and `h >= 1`;
/// operations that need a non-empty extent state that in their `requires`.
#[derive(Debug, Clone, Copy, PartialEq, Eq)]
pub struct Area {
    /// Start X coordinate.
    pub x: u16,
    /// Start Y coordinate.
    pub y: u16,
    /// Width of the area being written.
    pub w: u16,
    /// Height of the area being written.
    pub h: u16,
}

impl Area {
    /// Creates an area from its corner coordinates and extent.
    pub fn new(x: u16, y: u16, w: u16, h: u16) -> (r: Area)
        ensures
            r == (Area { x, y, w, h }),
    {
        Area { x, y, w, h }
    }

    /// Creates an area anchored at the origin.
    pub fn from_origin(w: u16, h: u16) -> (r: Area)
        ensures
            r == (Area { x: 0u16, y: 0u16, w, h }),
    {
        Area { x: 0, y: 0, w, h }
    }

    /// Creates an area anchored at the origin from a `(width, height)` pair.
    pub fn from_origin_size(size: (u16, u16)) -> (r: Area)
        ensures
            r == (Area { x: 0u16, y: 0u16, w: size.0, h: size.1 }),
    {
        Area { x: 0, y: 0, w: size.0, h: size.1 }
    }

    /// The top-left corner of the area.
    pub fn position(&self) -> (r: (u16, u16))
        ensures
            r == (self.x, self.y),
    {
        (self.x, self.y)
    }

    /// Number of pixels covered by the area.
    pub open spec fn spec_total_pixels(self) -> nat {
        (self.w * self.h) as nat
    }

    /// Number of pixels covered by the area.
    pub fn total_pixels(&self) -> (r: usize)
        ensures
            r == self.spec_total_pixels(),
    {
        proof {
            assert(self.w * self.h <= 65535 * 65535) by (nonlinear_arith)
                requires
                    self.w <= 65535,
                    self.h <= 65535,
            ;
        }
        self.w as usize * self.h as usize
    }

    /// The bottom-right corner, `(x + w - 1, y + h - 1)`.
    pub fn bottom_right(&self) -> (r: (u16, u16))
        requires
            self.w >= 1,
            self.h >= 1,
            self.x + self.w - 1 <= u16::MAX,
            self.y + self.h - 1 <= u16::MAX,
        ensures
            r.0 == self.x + self.w - 1,
            r.1 == self.y + self.h - 1,
    {
        (self.x + (self.w - 1), self.y + (self.h - 1))
    }
}

} // verus!
