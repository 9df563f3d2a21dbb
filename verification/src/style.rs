//! Colors, style patches and the concrete style a destination cell carries.
//!
//! A [`Style`] is a patch: each field is optional and, when present, replaces
//! the corresponding attribute of whatever it is applied to; its modifier
//! flags are only ever added.  A [`CellStyle`] is the concrete, fully
//! determined style of one destination cell.

use vstd::prelude::*;

verus! {

/// One of the destination surface's colors.
#[derive(Clone, Copy, Debug, PartialEq, Eq)]
pub enum Color {
    /// The surface's default color.
    Reset,
    Black,
    Red,
    Green,
    Yellow,
    Blue,
    Magenta,
    Cyan,
    Gray,
    DarkGray,
    LightRed,
    LightGreen,
    LightYellow,
    LightBlue,
    LightMagenta,
    LightCyan,
    White,
    /// A color of the 256-color palette.
    Indexed(u8),
    /// A true color.
    Rgb(u8, u8, u8),
}

/// The text attributes a destination cell can carry.
#[derive(Clone, Copy, Debug, PartialEq, Eq)]
pub struct Modifiers {
    pub bold: bool,
    pub italic: bool,
    pub underline: bool,
    pub reversed: bool,
}

impl Modifiers {
    /// The union of two attribute sets.
    pub open spec fn union_spec(self, other: Modifiers) -> Modifiers {
        Modifiers {
            bold: self.bold || other.bold,
            italic: self.italic || other.italic,
            underline: self.underline || other.underline,
            reversed: self.reversed || other.reversed,
        }
    }

    /// No attribute set.
    pub fn none() -> (r: Modifiers)
        ensures
            r == (Modifiers { bold: false, italic: false, underline: false, reversed: false }),
    {
        Modifiers { bold: false, italic: false, underline: false, reversed: false }
    }

    /// Adds every attribute of `other` to `self`.
    pub fn union(self, other: Modifiers) -> (r: Modifiers)
        ensures
            r == self.union_spec(other),
    {
        Modifiers {
            bold: self.bold || other.bold,
            italic: self.italic || other.italic,
            underline: self.underline || other.underline,
            reversed: self.reversed || other.reversed,
        }
    }
}

/// A style patch: optional colors and attributes to add.
#[derive(Clone, Copy, Debug, PartialEq, Eq)]
pub struct Style {
    pub fg: Option<Color>,
    pub bg: Option<Color>,
    pub add: Modifiers,
}

impl Style {
    /// The patch that changes nothing.
    pub open spec fn empty_spec() -> Style {
        Style {
            fg: None,
            bg: None,
            add: Modifiers { bold: false, italic: false, underline: false, reversed: false },
        }
    }

    /// The patch that changes nothing.
    pub fn new() -> (r: Style)
        ensures
            r == Style::empty_spec(),
    {
        Style { fg: None, bg: None, add: Modifiers::none() }
    }

    /// Same patch with the foreground color set.
    pub fn fg(self, color: Color) -> (r: Style)
        ensures
            r == (Style { fg: Some(color), ..self }),
    {
        Style { fg: Some(color), ..self }
    }

    /// Same patch with the background color set.
    pub fn bg(self, color: Color) -> (r: Style)
        ensures
            r == (Style { bg: Some(color), ..self }),
    {
        Style { bg: Some(color), ..self }
    }

    /// Same patch, also setting the bold attribute.
    pub fn bold(self) -> (r: Style)
        ensures
            r == (Style { add: Modifiers { bold: true, ..self.add }, ..self }),
    {
        Style { add: Modifiers { bold: true, ..self.add }, ..self }
    }

    /// Same patch, also setting the italic attribute.
    pub fn italic(self) -> (r: Style)
        ensures
            r == (Style { add: Modifiers { italic: true, ..self.add }, ..self }),
    {
        Style { add: Modifiers { italic: true, ..self.add }, ..self }
    }

    /// Same patch, also setting the underline attribute.
    pub fn underline(self) -> (r: Style)
        ensures
            r == (Style { add: Modifiers { underline: true, ..self.add }, ..self }),
    {
        Style { add: Modifiers { underline: true, ..self.add }, ..self }
    }

    /// Same patch, also setting the reverse-video attribute.
    pub fn reversed(self) -> (r: Style)
        ensures
            r == (Style { add: Modifiers { reversed: true, ..self.add }, ..self }),
    {
        Style { add: Modifiers { reversed: true, ..self.add }, ..self }
    }
}

/// The concrete style of one destination cell.
#[derive(Clone, Copy, Debug, PartialEq, Eq)]
pub struct CellStyle {
    pub fg: Color,
    pub bg: Color,
    pub mods: Modifiers,
}

impl CellStyle {
    /// The style of a freshly cleared cell: default colors, no attributes.
    pub open spec fn reset_spec() -> CellStyle {
        CellStyle {
            fg: Color::Reset,
            bg: Color::Reset,
            mods: Modifiers { bold: false, italic: false, underline: false, reversed: false },
        }
    }

    /// The style of a freshly cleared cell.
    pub fn reset() -> (r: CellStyle)
        ensures
            r == CellStyle::reset_spec(),
    {
        CellStyle { fg: Color::Reset, bg: Color::Reset, mods: Modifiers::none() }
    }

    /// The result of applying the patch `s`: present colors replace, absent
    /// ones keep the cell's, and the patch's attributes are added.
    pub open spec fn patched_spec(self, s: Style) -> CellStyle {
        CellStyle {
            fg: if s.fg is Some { s.fg->0 } else { self.fg },
            bg: if s.bg is Some { s.bg->0 } else { self.bg },
            mods: self.mods.union_spec(s.add),
        }
    }

    /// Applies the patch `s` to this style.
    pub fn patched(self, s: Style) -> (r: CellStyle)
        ensures
            r == self.patched_spec(s),
    {
        CellStyle {
            fg: match s.fg {
                Some(c) => c,
                None => self.fg,
            },
            bg: match s.bg {
                Some(c) => c,
                None => self.bg,
            },
            mods: self.mods.union(s.add),
        }
    }
}

} // verus!
