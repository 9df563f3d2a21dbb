//! The pseudo-terminal widget: an immutable configuration assembled through
//! chained setters and consumed by one render call.

use vstd::prelude::*;
use crate::area::Area;
use crate::compose::{base_pass, clear_pass, content_pass, cursor_pass, deco_pass, rendered_at};
use crate::decoration::{lemma_inner_inside, Decoration};
use crate::screen::Screen;
use crate::style::{Color, Modifiers, Style};
use crate::surface::Surface;

verus! {

/// How the cursor is presented: a glyph, a style for blank cells, a style
/// overlaid on occupied cells, and a visibility flag.
#[derive(Clone, Copy, Debug, PartialEq, Eq)]
pub struct Cursor {
    pub show: bool,
    pub symbol: char,
    pub style: Style,
    pub overlay_style: Style,
}

impl Cursor {
    /// Sets the symbol for the cursor.
    pub fn symbol(self, symbol: char) -> (r: Cursor)
        ensures
            r == (Cursor { symbol, ..self }),
    {
        Cursor { symbol, ..self }
    }

    /// Sets the style the cursor is drawn with on a cell without contents.
    pub fn style(self, style: Style) -> (r: Cursor)
        ensures
            r == (Cursor { style, ..self }),
    {
        Cursor { style, ..self }
    }

    /// Sets the style overlaid when the cursor sits on a cell with contents.
    pub fn overlay_style(self, overlay_style: Style) -> (r: Cursor)
        ensures
            r == (Cursor { overlay_style, ..self }),
    {
        Cursor { overlay_style, ..self }
    }

    /// Sets the visibility of the cursor (shown by default).
    pub fn visibility(self, show: bool) -> (r: Cursor)
        ensures
            r == (Cursor { show, ..self }),
    {
        Cursor { show, ..self }
    }

    /// Shows the cursor (the default).
    pub fn show(&mut self)
        ensures
            *final(self) == (Cursor { show: true, ..*old(self) }),
    {
        self.show = true;
    }

    /// Hides the cursor.
    pub fn conceal(&mut self)
        ensures
            *final(self) == (Cursor { show: false, ..*old(self) }),
    {
        self.show = false;
    }

    /// The default cursor: visible, a solid block in gray, and reverse video
    /// when it overlaps contents.
    pub open spec fn default_spec() -> Cursor {
        Cursor {
            show: true,
            symbol: '\u{2588}',
            style: Style {
                fg: Some(Color::Gray),
                bg: None,
                add: Modifiers { bold: false, italic: false, underline: false, reversed: false },
            },
            overlay_style: Style {
                fg: None,
                bg: None,
                add: Modifiers { bold: false, italic: false, underline: false, reversed: true },
            },
        }
    }
}

impl Default for Cursor {
    fn default() -> (r: Cursor)
        ensures
            r == Cursor::default_spec(),
    {
        Cursor {
            show: true,
            symbol: '\u{2588}',
            style: Style::new().fg(Color::Gray),
            overlay_style: Style::new().reversed(),
        }
    }
}

/// A widget that composites a pseudo-terminal screen onto a surface.
pub struct PseudoTerminal<'a, S: Screen> {
    pub screen: &'a S,
    pub block: Option<Decoration>,
    pub style: Option<Style>,
    pub cursor: Cursor,
}

impl<'a, S: Screen> PseudoTerminal<'a, S> {
    /// A configuration for the given screen: no decoration, no baseline
    /// style, the default cursor.
    pub fn new(screen: &'a S) -> (r: PseudoTerminal<'a, S>)
        ensures
            r.screen == screen,
            r.block is None,
            r.style is None,
            r.cursor == Cursor::default_spec(),
    {
        PseudoTerminal { screen, block: None, style: None, cursor: Cursor::default() }
    }

    /// Sets the decoration drawn around the content.
    pub fn block(self, block: Decoration) -> (r: PseudoTerminal<'a, S>)
        ensures
            r.screen == self.screen,
            r.block == Some(block),
            r.style == self.style,
            r.cursor == self.cursor,
    {
        PseudoTerminal { block: Some(block), ..self }
    }

    /// Sets the cursor presentation.
    pub fn cursor(self, cursor: Cursor) -> (r: PseudoTerminal<'a, S>)
        ensures
            r.screen == self.screen,
            r.block == self.block,
            r.style == self.style,
            r.cursor == cursor,
    {
        PseudoTerminal { cursor, ..self }
    }

    /// Sets the baseline style filled across the inner area before content.
    pub fn style(self, style: Style) -> (r: PseudoTerminal<'a, S>)
        ensures
            r.screen == self.screen,
            r.block == self.block,
            r.style == Some(style),
            r.cursor == self.cursor,
    {
        PseudoTerminal { style: Some(style), ..self }
    }

    /// The screen this configuration renders.
    pub fn screen(&self) -> (r: &'a S)
        ensures
            r == self.screen,
    {
        self.screen
    }

    /// Composites the screen onto `buf` inside `area`: clears the area,
    /// draws the decoration, fills the baseline style, maps the screen's
    /// cells one to one, and overlays the cursor.  Never fails, whatever the
    /// sizes of the screen, the area and the surface.
    pub fn render(self, area: Area, buf: &mut Surface)
        requires
            old(buf).wf(),
        ensures
            final(buf).wf(),
            final(buf).width_spec() == old(buf).width_spec(),
            final(buf).height_spec() == old(buf).height_spec(),
            forall|x: int, y: int|
                0 <= x < old(buf).width_spec() && 0 <= y < old(buf).height_spec()
                    ==> final(buf).at(x, y) == rendered_at(
                    self.screen,
                    self.block,
                    self.style,
                    self.cursor,
                    area,
                    old(buf).width_spec(),
                    old(buf).height_spec(),
                    old(buf).at(x, y),
                    x,
                    y,
                ),
    {
        let ghost buf0 = *buf;
        let sw = buf.width();
        let sh = buf.height();
        let outer = area.clipped(sw, sh);
        clear_pass(buf, outer);
        let ghost buf1 = *buf;
        let inner = match &self.block {
            Some(d) => {
                proof {
                    lemma_inner_inside(*d, outer);
                }
                let inr = d.inner(outer);
                deco_pass(d, outer, inr, buf);
                inr
            },
            None => outer,
        };
        let ghost buf2 = *buf;
        match &self.style {
            Some(st) => base_pass(*st, inner, buf),
            None => {},
        }
        let ghost buf3 = *buf;
        content_pass(self.screen, inner, buf);
        let ghost buf4 = *buf;
        cursor_pass(self.screen, &self.cursor, inner, buf);
        proof {
            assert forall|x: int, y: int|
                0 <= x < buf0.width_spec() && 0 <= y < buf0.height_spec() implies buf.at(x, y)
                == rendered_at(
                self.screen,
                self.block,
                self.style,
                self.cursor,
                area,
                buf0.width_spec(),
                buf0.height_spec(),
                buf0.at(x, y),
                x,
                y,
            ) by {
                assert(buf1.at(x, y) == crate::compose::clear_at(outer, buf0.at(x, y), x, y));
                assert(buf2.at(x, y) == crate::compose::deco_at(
                    self.block,
                    outer,
                    inner,
                    buf1.at(x, y),
                    x,
                    y,
                ));
                assert(buf3.at(x, y) == crate::compose::base_at(
                    self.style,
                    inner,
                    buf2.at(x, y),
                    x,
                    y,
                ));
                assert(buf4.at(x, y) == crate::compose::content_at(
                    self.screen,
                    inner,
                    buf3.at(x, y),
                    x,
                    y,
                ));
                assert(buf.at(x, y) == crate::compose::cursor_at(
                    self.screen,
                    self.cursor,
                    inner,
                    buf4.at(x, y),
                    x,
                    y,
                ));
            }
        }
    }
}

} // verus!
