//! Mapping from the overlay window's screen rectangle into the capture
//! texture.
//!
//! The desktop capture covers the whole primary monitor, so the shader must
//! sample the part of it that lies behind the window. A point offset
//! `(px, py)` from the window's top-left corner sits at capture-space pixel
//! `(window_pos + offset)`; dividing by `capture_size` then normalises it, so
//! both corners of the sampling rectangle come from the one formula below and
//! the rectangle is exact whatever the display scale factor rounds elsewhere.

use vstd::prelude::*;

verus! {

/// A position in screen space, in physical pixels.
#[derive(Clone, Copy, Debug, PartialEq, Eq, Structural)]
pub struct ScreenPos {
    pub x: i32,
    pub y: i32,
}

/// A texture or window extent, in physical pixels.
#[derive(Clone, Copy, Debug, PartialEq, Eq, Structural)]
pub struct PixelSize {
    pub width: u32,
    pub height: u32,
}

/// Region mapping uploaded to the compositor every tick: window rectangle in
/// screen space and the capture texture's dimensions.
#[derive(Clone, Copy, Debug, PartialEq, Eq, Structural)]
pub struct RegionParams {
    pub window_pos: ScreenPos,
    pub window_size: PixelSize,
    pub capture_size: PixelSize,
}

/// Capture-space pixel of the point `(px, py)` measured from the window's
/// top-left corner.
pub open spec fn capture_point(r: RegionParams, px: int, py: int) -> (int, int) {
    (r.window_pos.x + px, r.window_pos.y + py)
}

impl RegionParams {
    /// Map a point offset from the window's top-left corner into capture
    /// space.
    pub fn to_capture_space(&self, px: u32, py: u32) -> (q: (i64, i64))
        ensures
            (q.0 as int, q.1 as int) == capture_point(*self, px as int, py as int),
    {
        (self.window_pos.x as i64 + px as i64, self.window_pos.y as i64 + py as i64)
    }

    /// Capture-space pixel of the window's top-left corner.
    pub fn top_left(&self) -> (q: (i64, i64))
        ensures
            (q.0 as int, q.1 as int) == capture_point(*self, 0, 0),
            q.0 == self.window_pos.x && q.1 == self.window_pos.y,
    {
        self.to_capture_space(0, 0)
    }

    /// Capture-space pixel of the window's bottom-right corner.
    pub fn bottom_right(&self) -> (q: (i64, i64))
        ensures
            (q.0 as int, q.1 as int) == capture_point(
                *self,
                self.window_size.width as int,
                self.window_size.height as int,
            ),
            q.0 == self.window_pos.x + self.window_size.width
                && q.1 == self.window_pos.y + self.window_size.height,
    {
        self.to_capture_space(self.window_size.width, self.window_size.height)
    }
}

/// Both corners come from the same formula, so the sampling rectangle's
/// bottom-right corner is always the top-left corner shifted by exactly the
/// window size.
pub proof fn lemma_region_corners(r: RegionParams)
    ensures
        capture_point(r, r.window_size.width as int, r.window_size.height as int).0
            == capture_point(r, 0, 0).0 + r.window_size.width,
        capture_point(r, r.window_size.width as int, r.window_size.height as int).1
            == capture_point(r, 0, 0).1 + r.window_size.height,
{
}

} // verus!
