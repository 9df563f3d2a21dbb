//! Rectangular regions of the destination surface.

use vstd::prelude::*;

verus! {

/// A rectangle of the destination surface: an origin and an extent, in cells.
#[derive(Clone, Copy, Debug, PartialEq, Eq)]
pub struct Area {
    pub x: u16,
    pub y: u16,
    pub width: u16,
    pub height: u16,
}

impl Area {
    /// First column to the right of the rectangle.
    pub open spec fn right(self) -> int {
        self.x + self.width
    }

    /// First row below the rectangle.
    pub open spec fn bottom(self) -> int {
        self.y + self.height
    }

    /// Whether the surface coordinate `(x, y)` lies inside the rectangle.
    pub open spec fn contains(self, x: int, y: int) -> bool {
        &&& self.x <= x < self.right()
        &&& self.y <= y < self.bottom()
    }

    /// The rectangle cut down so that it lies on a surface of `width`
    /// columns and `height` rows.  An origin beyond the surface is pulled to
    /// its edge and leaves an empty rectangle.
    pub open spec fn clipped_spec(self, width: u16, height: u16) -> Area {
        Area {
            x: if self.x >= width {
                width
            } else {
                self.x
            },
            y: if self.y >= height {
                height
            } else {
                self.y
            },
            width: if self.x >= width {
                0
            } else if self.right() > width {
                (width - self.x) as u16
            } else {
                self.width
            },
            height: if self.y >= height {
                0
            } else if self.bottom() > height {
                (height - self.y) as u16
            } else {
                self.height
            },
        }
    }

    /// Constructs an area.
    pub fn new(x: u16, y: u16, width: u16, height: u16) -> (r: Area)
        ensures
            r == (Area { x, y, width, height }),
    {
        Area { x, y, width, height }
    }

    /// Whether the surface coordinate `(x, y)` lies inside this rectangle.
    pub fn has(&self, x: u16, y: u16) -> (r: bool)
        ensures
            r == self.contains(x as int, y as int),
    {
        x >= self.x && (x - self.x) < self.width && y >= self.y && (y - self.y) < self.height
    }

    /// Clips this area against a surface of the given extent.
    pub fn clipped(self, width: u16, height: u16) -> (r: Area)
        ensures
            r == self.clipped_spec(width, height),
            r.right() <= width,
            r.bottom() <= height,
            forall|px: int, py: int| r.contains(px, py) <==> self.contains(px, py) && 0 <= px
                < width && 0 <= py < height,
    {
        let cx: u16 = if self.x >= width {
            width
        } else {
            self.x
        };
        let cy: u16 = if self.y >= height {
            height
        } else {
            self.y
        };
        let w: u16 = if self.x >= width {
            0
        } else if width - self.x < self.width {
            width - self.x
        } else {
            self.width
        };
        let h: u16 = if self.y >= height {
            0
        } else if height - self.y < self.height {
            height - self.y
        } else {
            self.height
        };
        Area { x: cx, y: cy, width: w, height: h }
    }
}

} // verus!
