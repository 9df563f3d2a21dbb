//! The destination surface: a grid of glyph-and-style cells that one render
//! call fills.

use vstd::prelude::*;
use crate::style::{CellStyle, Style};

verus! {

/// One destination cell: a glyph and its concrete style.
#[derive(Clone, Copy, Debug, PartialEq, Eq)]
pub struct DestCell {
    pub glyph: char,
    pub style: CellStyle,
}

impl DestCell {
    /// A cleared cell: a blank glyph with the reset style.
    pub open spec fn cleared_spec() -> DestCell {
        DestCell { glyph: ' ', style: CellStyle::reset_spec() }
    }

    /// A cleared cell: a blank glyph with the reset style.
    pub fn cleared() -> (r: DestCell)
        ensures
            r == DestCell::cleared_spec(),
    {
        DestCell { glyph: ' ', style: CellStyle::reset() }
    }

    /// The same glyph with the patch `s` applied to the style.
    pub open spec fn styled_spec(self, s: Style) -> DestCell {
        DestCell { glyph: self.glyph, style: self.style.patched_spec(s) }
    }

    /// Applies the patch `s` to this cell's style, keeping the glyph.
    pub fn styled(self, s: Style) -> (r: DestCell)
        ensures
            r == self.styled_spec(s),
    {
        DestCell { glyph: self.glyph, style: self.style.patched(s) }
    }
}

/// A drawing surface of `width` columns by `height` rows, stored row by row.
pub struct Surface {
    width: u16,
    height: u16,
    cells: Vec<DestCell>,
}

impl Surface {
    /// Whether the cell storage matches the surface's extent.
    pub closed spec fn wf(self) -> bool {
        self.cells.len() == self.width * self.height
    }

    /// The number of columns.
    pub closed spec fn width_spec(self) -> u16 {
        self.width
    }

    /// The number of rows.
    pub closed spec fn height_spec(self) -> u16 {
        self.height
    }

    /// The cell at column `x`, row `y`.
    pub closed spec fn at(self, x: int, y: int) -> DestCell {
        self.cells[y * self.width + x]
    }

    /// A surface of the given extent in which every cell is cleared.
    pub fn new(width: u16, height: u16) -> (r: Surface)
        ensures
            r.wf(),
            r.width_spec() == width,
            r.height_spec() == height,
            forall|x: int, y: int|
                0 <= x < width && 0 <= y < height ==> r.at(x, y) == DestCell::cleared_spec(),
    {
        proof {
            assert(width * height <= 0xffff * 0xffff) by (nonlinear_arith)
                requires
                    width <= 0xffff,
                    height <= 0xffff,
            ;
        }
        let total: usize = (width as usize) * (height as usize);
        let mut cells: Vec<DestCell> = Vec::new();
        let mut i: usize = 0;
        while i < total
            invariant
                i <= total,
                total == width * height,
                cells.len() == i,
                forall|k: int| 0 <= k < i ==> cells[k] == DestCell::cleared_spec(),
            decreases total - i,
        {
            cells.push(DestCell::cleared());
            i = i + 1;
        }
        let r = Surface { width, height, cells };
        proof {
            assert forall|x: int, y: int|
                0 <= x < width && 0 <= y < height implies r.at(x, y)
                == DestCell::cleared_spec() by {
                assert(0 <= y * r.width + x < total) by (nonlinear_arith)
                    requires
                        0 <= x < r.width,
                        0 <= y < r.height,
                        total == r.width * r.height,
                ;
            }
        }
        r
    }

    /// The number of columns.
    pub fn width(&self) -> (r: u16)
        ensures
            r == self.width_spec(),
    {
        self.width
    }

    /// The number of rows.
    pub fn height(&self) -> (r: u16)
        ensures
            r == self.height_spec(),
    {
        self.height
    }

    /// The cell at column `x`, row `y`, or `None` outside the surface.
    pub fn get(&self, x: u16, y: u16) -> (r: Option<DestCell>)
        requires
            self.wf(),
        ensures
            r == if x < self.width_spec() && y < self.height_spec() {
                Some(self.at(x as int, y as int))
            } else {
                None::<DestCell>
            },
    {
        if x < self.width && y < self.height {
            proof {
                assert(0 <= y * self.width + x < self.cells.len() && self.cells.len() <= 0xffff
                    * 0xffff) by (nonlinear_arith)
                    requires
                        0 <= x < self.width,
                        0 <= y < self.height,
                        self.width <= 0xffff,
                        self.height <= 0xffff,
                        self.cells.len() == self.width * self.height,
                ;
            }
            let idx: usize = (y as usize) * (self.width as usize) + (x as usize);
            Some(self.cells[idx])
        } else {
            None
        }
    }

    /// Writes the cell at column `x`, row `y`; every other cell is kept.
    pub fn put(&mut self, x: u16, y: u16, cell: DestCell)
        requires
            old(self).wf(),
            x < old(self).width_spec(),
            y < old(self).height_spec(),
        ensures
            final(self).wf(),
            final(self).width_spec() == old(self).width_spec(),
            final(self).height_spec() == old(self).height_spec(),
            final(self).at(x as int, y as int) == cell,
            forall|px: int, py: int|
                0 <= px < final(self).width_spec() && 0 <= py < final(self).height_spec() && !(px
                    == x && py == y) ==> final(self).at(px, py) == old(self).at(px, py),
    {
        proof {
            assert(0 <= y * self.width + x < self.cells.len() && self.cells.len() <= 0xffff
                * 0xffff) by (nonlinear_arith)
                requires
                    0 <= x < self.width,
                    0 <= y < self.height,
                    self.width <= 0xffff,
                    self.height <= 0xffff,
                    self.cells.len() == self.width * self.height,
            ;
        }
        let idx: usize = (y as usize) * (self.width as usize) + (x as usize);
        self.cells[idx] = cell;
        proof {
            assert forall|px: int, py: int|
                0 <= px < self.width_spec() && 0 <= py < self.height_spec() && !(px == x && py
                    == y) implies self.at(px, py) == old(self).at(px, py) by {
                assert(0 <= py * self.width + px < self.cells.len() && py * self.width + px != y
                    * self.width + x) by (nonlinear_arith)
                    requires
                        0 <= px < self.width,
                        0 <= py < self.height,
                        0 <= x < self.width,
                        0 <= y < self.height,
                        !(px == x && py == y),
                        self.cells.len() == self.width * self.height,
                ;
            }
            assert(self.at(x as int, y as int) == cell) by {
                assert(0 <= y * self.width + x < self.cells.len()) by (nonlinear_arith)
                    requires
                        0 <= x < self.width,
                        0 <= y < self.height,
                        self.cells.len() == self.width * self.height,
                ;
            }
        }
    }
}

} // verus!
