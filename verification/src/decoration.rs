//! An optional border-and-title frame drawn around the rendered content.
//!
//! A decoration shrinks the usable inner area by one cell on each side that
//! carries a border, and by one row at the top when a title is present even
//! without a top border.  Its glyphs are painted with its own style; the
//! configuration's baseline style never touches them.

use vstd::prelude::*;
use crate::area::Area;
use crate::style::{CellStyle, Style};
use crate::surface::DestCell;

verus! {

/// A border-and-title frame around the rendered content.
#[derive(Clone, Debug, PartialEq, Eq)]
pub struct Decoration {
    pub top: bool,
    pub bottom: bool,
    pub left: bool,
    pub right: bool,
    /// Glyphs written on the top row, after the top-left corner.
    pub title: Vec<char>,
    /// The style of every cell the decoration occupies.
    pub style: Style,
}

impl Decoration {
    /// How many rows the decoration takes at the top: one for a top border
    /// or for a title row.
    pub open spec fn top_margin(self) -> int {
        if self.top || self.title.len() > 0 {
            1
        } else {
            0
        }
    }

    /// How many rows the decoration takes at the bottom.
    pub open spec fn bottom_margin(self) -> int {
        if self.bottom {
            1
        } else {
            0
        }
    }

    /// How many columns the decoration takes at the left.
    pub open spec fn left_margin(self) -> int {
        if self.left {
            1
        } else {
            0
        }
    }

    /// How many columns the decoration takes at the right.
    pub open spec fn right_margin(self) -> int {
        if self.right {
            1
        } else {
            0
        }
    }

    /// The outer area minus this decoration's margins, clamped so that a
    /// margin never underflows an area too small to carry it.
    pub open spec fn inner_spec(self, outer: Area) -> Area {
        Area {
            x: if outer.width >= self.left_margin() {
                (outer.x + self.left_margin()) as u16
            } else {
                outer.x
            },
            y: if outer.height >= self.top_margin() {
                (outer.y + self.top_margin()) as u16
            } else {
                outer.y
            },
            width: if outer.width >= self.left_margin() + self.right_margin() {
                (outer.width - self.left_margin() - self.right_margin()) as u16
            } else {
                0
            },
            height: if outer.height >= self.top_margin() + self.bottom_margin() {
                (outer.height - self.top_margin() - self.bottom_margin()) as u16
            } else {
                0
            },
        }
    }

    /// The glyph the decoration paints at the surface coordinate `(x, y)`,
    /// for coordinates of `outer` outside `inner_spec(outer)`.
    pub open spec fn glyph_spec(self, outer: Area, x: int, y: int) -> char {
        let i = x - outer.x;
        let j = y - outer.y;
        let w = outer.width as int;
        let h = outer.height as int;
        if j == 0 && self.top_margin() == 1 {
            if self.left && i == 0 {
                if self.top {
                    '\u{250c}'
                } else {
                    '\u{2502}'
                }
            } else if self.right && i == w - 1 {
                if self.top {
                    '\u{2510}'
                } else {
                    '\u{2502}'
                }
            } else if 0 <= i - self.left_margin() < self.title.len() {
                self.title[i - self.left_margin()]
            } else if self.top {
                '\u{2500}'
            } else {
                ' '
            }
        } else if j == h - 1 && self.bottom {
            if self.left && i == 0 {
                '\u{2514}'
            } else if self.right && i == w - 1 {
                '\u{2518}'
            } else {
                '\u{2500}'
            }
        } else if self.left && i == 0 {
            '\u{2502}'
        } else if self.right && i == w - 1 {
            '\u{2502}'
        } else {
            ' '
        }
    }

    /// The cell the decoration paints at the surface coordinate `(x, y)`:
    /// its glyph there, with its own style over a cleared cell.
    pub open spec fn cell_spec_at(self, outer: Area, x: int, y: int) -> DestCell {
        DestCell {
            glyph: self.glyph_spec(outer, x, y),
            style: CellStyle::reset_spec().patched_spec(self.style),
        }
    }

    /// A decoration without borders, title or style.
    pub fn new() -> (r: Decoration)
        ensures
            r.top == false,
            r.bottom == false,
            r.left == false,
            r.right == false,
            r.title@ == Seq::<char>::empty(),
            r.style == Style::empty_spec(),
    {
        Decoration {
            top: false,
            bottom: false,
            left: false,
            right: false,
            title: Vec::new(),
            style: Style::new(),
        }
    }

    /// Same decoration with the given border sides.
    pub fn borders(self, top: bool, bottom: bool, left: bool, right: bool) -> (r: Decoration)
        ensures
            r == (Decoration { top, bottom, left, right, ..self }),
    {
        Decoration { top, bottom, left, right, ..self }
    }

    /// Same decoration with a border on every side.
    pub fn all_borders(self) -> (r: Decoration)
        ensures
            r == (Decoration { top: true, bottom: true, left: true, right: true, ..self }),
    {
        Decoration { top: true, bottom: true, left: true, right: true, ..self }
    }

    /// Same decoration with the given title glyphs.
    pub fn title(self, title: Vec<char>) -> (r: Decoration)
        ensures
            r == (Decoration { title, ..self }),
    {
        Decoration { title, ..self }
    }

    /// Same decoration with the given style.
    pub fn style(self, style: Style) -> (r: Decoration)
        ensures
            r == (Decoration { style, ..self }),
    {
        Decoration { style, ..self }
    }

    /// Computes the inner area left for content inside `outer`.
    pub fn inner(&self, outer: Area) -> (r: Area)
        requires
            outer.right() <= u16::MAX,
            outer.bottom() <= u16::MAX,
        ensures
            r == self.inner_spec(outer),
    {
        let lm: u16 = if self.left {
            1
        } else {
            0
        };
        let rm: u16 = if self.right {
            1
        } else {
            0
        };
        let tm: u16 = if self.top || self.title.len() > 0 {
            1
        } else {
            0
        };
        let bm: u16 = if self.bottom {
            1
        } else {
            0
        };
        Area {
            x: if outer.width >= lm {
                outer.x + lm
            } else {
                outer.x
            },
            y: if outer.height >= tm {
                outer.y + tm
            } else {
                outer.y
            },
            width: if outer.width >= lm && outer.width - lm >= rm {
                outer.width - lm - rm
            } else {
                0
            },
            height: if outer.height >= tm && outer.height - tm >= bm {
                outer.height - tm - bm
            } else {
                0
            },
        }
    }

    /// Computes the glyph painted at the surface coordinate `(x, y)`.
    pub fn glyph_at(&self, outer: Area, x: u16, y: u16) -> (r: char)
        requires
            outer.contains(x as int, y as int),
        ensures
            r == self.glyph_spec(outer, x as int, y as int),
    {
        let i: u16 = x - outer.x;
        let j: u16 = y - outer.y;
        let lm: u16 = if self.left {
            1
        } else {
            0
        };
        if j == 0 && (self.top || self.title.len() > 0) {
            if self.left && i == 0 {
                if self.top {
                    '\u{250c}'
                } else {
                    '\u{2502}'
                }
            } else if self.right && i == outer.width - 1 {
                if self.top {
                    '\u{2510}'
                } else {
                    '\u{2502}'
                }
            } else if i >= lm && ((i - lm) as usize) < self.title.len() {
                self.title[(i - lm) as usize]
            } else if self.top {
                '\u{2500}'
            } else {
                ' '
            }
        } else if j == outer.height - 1 && self.bottom {
            if self.left && i == 0 {
                '\u{2514}'
            } else if self.right && i == outer.width - 1 {
                '\u{2518}'
            } else {
                '\u{2500}'
            }
        } else if self.left && i == 0 {
            '\u{2502}'
        } else if self.right && i == outer.width - 1 {
            '\u{2502}'
        } else {
            ' '
        }
    }
}

/// The inner area a decoration leaves is contained in the outer area, side
/// by side.
pub proof fn lemma_inner_inside(d: Decoration, outer: Area)
    requires
        outer.right() <= u16::MAX,
        outer.bottom() <= u16::MAX,
    ensures
        outer.x <= d.inner_spec(outer).x,
        outer.y <= d.inner_spec(outer).y,
        d.inner_spec(outer).right() <= outer.right(),
        d.inner_spec(outer).bottom() <= outer.bottom(),
        forall|x: int, y: int| d.inner_spec(outer).contains(x, y) ==> outer.contains(x, y),
{
}

} // verus!
