//! The screen capability: what a terminal emulator must expose so that its
//! state can be composited onto a surface, and a plain grid backend.

use vstd::prelude::*;
use crate::style::CellStyle;
use crate::surface::DestCell;

verus! {

/// What one screen cell holds, as plain values.
#[derive(Clone, Copy, Debug, PartialEq, Eq)]
pub struct CellModel {
    /// Whether the cell has anything renderable.
    pub has_contents: bool,
    pub glyph: char,
    pub style: CellStyle,
}

impl CellModel {
    /// The destination cell this screen cell renders as.
    pub open spec fn to_dest_spec(self) -> DestCell {
        DestCell { glyph: self.glyph, style: self.style }
    }
}

/// A single cell of a terminal screen.
pub trait Cell: Sized {
    /// The plain values this cell renders as.
    spec fn model(&self) -> CellModel;

    /// Whether the cell has any contents that could be rendered.
    fn has_contents(&self) -> (r: bool)
        ensures
            r == self.model().has_contents,
    ;

    /// Writes this cell's glyph and style into the destination cell,
    /// replacing both entirely.
    fn apply(&self, dest: &mut DestCell)
        ensures
            *final(dest) == self.model().to_dest_spec(),
    ;
}

/// A terminal screen: a grid of cells plus a cursor.
pub trait Screen: Sized {
    /// The type of cell this screen contains.
    type C: Cell;

    /// The cell at `(row, col)`, or `None` outside the grid.
    spec fn cell_spec(&self, row: u16, col: u16) -> Option<CellModel>;

    /// The cursor position, as `(row, col)`.
    spec fn cursor_spec(&self) -> (u16, u16);

    /// Whether the screen asks for the cursor to be hidden.
    spec fn hidden_spec(&self) -> bool;

    /// Returns the cell at the given location if it exists.
    fn cell(&self, row: u16, col: u16) -> (r: Option<&Self::C>)
        ensures
            match r {
                Some(c) => self.cell_spec(row, col) == Some(c.model()),
                None => self.cell_spec(row, col) is None,
            },
    ;

    /// Returns whether the cursor should be hidden.
    fn hide_cursor(&self) -> (r: bool)
        ensures
            r == self.hidden_spec(),
    ;

    /// Returns the cursor position of the screen, as `(row, col)`.
    fn cursor_position(&self) -> (r: (u16, u16))
        ensures
            r == self.cursor_spec(),
    ;
}

/// A cell of [`GridScreen`], holding its rendered values directly.
#[derive(Clone, Copy, Debug, PartialEq, Eq)]
pub struct GridCell {
    pub data: CellModel,
}

impl Cell for GridCell {
    open spec fn model(&self) -> CellModel {
        self.data
    }

    fn has_contents(&self) -> (r: bool) {
        self.data.has_contents
    }

    fn apply(&self, dest: &mut DestCell) {
        *dest = DestCell { glyph: self.data.glyph, style: self.data.style };
    }
}

/// A terminal screen held as a plain grid, stored row by row.
pub struct GridScreen {
    rows: u16,
    cols: u16,
    cells: Vec<GridCell>,
    cursor_row: u16,
    cursor_col: u16,
    hidden: bool,
}

impl GridScreen {
    /// Whether the cell storage matches the grid's extent.
    pub closed spec fn wf(self) -> bool {
        self.cells.len() == self.rows * self.cols
    }

    /// The number of rows.
    pub closed spec fn rows_spec(self) -> u16 {
        self.rows
    }

    /// The number of columns.
    pub closed spec fn cols_spec(self) -> u16 {
        self.cols
    }

    /// A screen of the given extent: every cell blank and without contents,
    /// the cursor at the origin and not hidden.
    pub fn new(rows: u16, cols: u16) -> (r: GridScreen)
        ensures
            r.wf(),
            r.rows_spec() == rows,
            r.cols_spec() == cols,
            r.cursor_spec() == (0u16, 0u16),
            !r.hidden_spec(),
            forall|row: u16, col: u16|
                r.cell_spec(row, col) == if row < rows && col < cols {
                    Some(
                        CellModel {
                            has_contents: false,
                            glyph: ' ',
                            style: CellStyle::reset_spec(),
                        },
                    )
                } else {
                    None::<CellModel>
                },
    {
        proof {
            assert(rows * cols <= 0xffff * 0xffff) by (nonlinear_arith)
                requires
                    rows <= 0xffff,
                    cols <= 0xffff,
            ;
        }
        let total: usize = (rows as usize) * (cols as usize);
        let blank = GridCell {
            data: CellModel { has_contents: false, glyph: ' ', style: CellStyle::reset() },
        };
        let mut cells: Vec<GridCell> = Vec::new();
        let mut i: usize = 0;
        while i < total
            invariant
                i <= total,
                cells.len() == i,
                forall|k: int| 0 <= k < i ==> cells[k] == blank,
            decreases total - i,
        {
            cells.push(blank);
            i = i + 1;
        }
        let r = GridScreen { rows, cols, cells, cursor_row: 0, cursor_col: 0, hidden: false };
        proof {
            assert forall|row: u16, col: u16| row < rows && col < cols implies r.cell_spec(
                row,
                col,
            ) == Some(blank.data) by {
                assert(0 <= row * cols + col < total) by (nonlinear_arith)
                    requires
                        0 <= row < rows,
                        0 <= col < cols,
                        total == rows * cols,
                ;
            }
        }
        r
    }

    /// The number of rows.
    pub fn rows(&self) -> (r: u16)
        ensures
            r == self.rows_spec(),
    {
        self.rows
    }

    /// The number of columns.
    pub fn cols(&self) -> (r: u16)
        ensures
            r == self.cols_spec(),
    {
        self.cols
    }

    /// Replaces the cell at `(row, col)`; every other cell, the extent and
    /// the cursor are kept.
    pub fn set_cell(&mut self, row: u16, col: u16, data: CellModel)
        requires
            old(self).wf(),
            row < old(self).rows_spec(),
            col < old(self).cols_spec(),
        ensures
            final(self).wf(),
            final(self).rows_spec() == old(self).rows_spec(),
            final(self).cols_spec() == old(self).cols_spec(),
            final(self).cursor_spec() == old(self).cursor_spec(),
            final(self).hidden_spec() == old(self).hidden_spec(),
            final(self).cell_spec(row, col) == Some(data),
            forall|r: u16, c: u16|
                !(r == row && c == col) ==> final(self).cell_spec(r, c) == old(self).cell_spec(
                    r,
                    c,
                ),
    {
        proof {
            assert(0 <= row * self.cols + col < self.cells.len() && self.cells.len() <= 0xffff
                * 0xffff) by (nonlinear_arith)
                requires
                    0 <= row < self.rows,
                    0 <= col < self.cols,
                    self.rows <= 0xffff,
                    self.cols <= 0xffff,
                    self.cells.len() == self.rows * self.cols,
            ;
        }
        let idx: usize = (row as usize) * (self.cols as usize) + (col as usize);
        self.cells[idx] = GridCell { data };
        proof {
            assert forall|r: u16, c: u16| !(r == row && c == col) implies self.cell_spec(r, c)
                == old(self).cell_spec(r, c) by {
                if r < self.rows && c < self.cols {
                    assert(0 <= r * self.cols + c < self.cells.len() && r * self.cols + c != row
                        * self.cols + col) by (nonlinear_arith)
                        requires
                            0 <= r < self.rows,
                            0 <= c < self.cols,
                            0 <= row < self.rows,
                            0 <= col < self.cols,
                            !(r == row && c == col),
                            self.cells.len() == self.rows * self.cols,
                    ;
                }
            }
        }
    }

    /// Moves the cursor; everything else is kept.
    pub fn set_cursor(&mut self, row: u16, col: u16)
        ensures
            final(self).wf() == old(self).wf(),
            final(self).rows_spec() == old(self).rows_spec(),
            final(self).cols_spec() == old(self).cols_spec(),
            final(self).cursor_spec() == (row, col),
            final(self).hidden_spec() == old(self).hidden_spec(),
            forall|r: u16, c: u16| final(self).cell_spec(r, c) == old(self).cell_spec(r, c),
    {
        self.cursor_row = row;
        self.cursor_col = col;
    }

    /// Sets whether this screen asks for the cursor to be hidden; everything
    /// else is kept.
    pub fn set_hidden(&mut self, hidden: bool)
        ensures
            final(self).wf() == old(self).wf(),
            final(self).rows_spec() == old(self).rows_spec(),
            final(self).cols_spec() == old(self).cols_spec(),
            final(self).cursor_spec() == old(self).cursor_spec(),
            final(self).hidden_spec() == hidden,
            forall|r: u16, c: u16| final(self).cell_spec(r, c) == old(self).cell_spec(r, c),
    {
        self.hidden = hidden;
    }
}

impl Screen for GridScreen {
    type C = GridCell;

    closed spec fn cell_spec(&self, row: u16, col: u16) -> Option<CellModel> {
        if row < self.rows && col < self.cols && self.cells.len() == self.rows * self.cols {
            Some(self.cells[row * self.cols + col].data)
        } else {
            None
        }
    }

    closed spec fn cursor_spec(&self) -> (u16, u16) {
        (self.cursor_row, self.cursor_col)
    }

    closed spec fn hidden_spec(&self) -> bool {
        self.hidden
    }

    fn cell(&self, row: u16, col: u16) -> (r: Option<&GridCell>) {
        proof {
            assert(self.rows * self.cols <= 0xffff * 0xffff) by (nonlinear_arith)
                requires
                    self.rows <= 0xffff,
                    self.cols <= 0xffff,
            ;
        }
        if row < self.rows && col < self.cols && self.cells.len() == (self.rows as usize) * (
        self.cols as usize) {
            proof {
                assert(0 <= row * self.cols + col < self.cells.len()) by (nonlinear_arith)
                    requires
                        0 <= row < self.rows,
                        0 <= col < self.cols,
                        self.cells.len() == self.rows * self.cols,
                ;
            }
            let idx: usize = (row as usize) * (self.cols as usize) + (col as usize);
            Some(&self.cells[idx])
        } else {
            None
        }
    }

    fn hide_cursor(&self) -> (r: bool) {
        self.hidden
    }

    fn cursor_position(&self) -> (r: (u16, u16)) {
        (self.cursor_row, self.cursor_col)
    }
}

} // verus!
