//! The compositing pipeline: what each stage of one render call leaves in
//! every destination cell, and the verified passes that produce it.
//!
//! A render call works in five stages — clear, decoration, baseline fill,
//! per-cell content, cursor overlay — and each stage's effect on a single
//! destination cell is a spec function of the cell the previous stage left
//! there.  [`rendered_at`] stacks the five and is the whole call's contract.

use vstd::prelude::*;
use crate::area::Area;
use crate::decoration::Decoration;
use crate::screen::{Cell, Screen};
use crate::style::{CellStyle, Style};
use crate::surface::{DestCell, Surface};
use crate::widget::Cursor;

verus! {

/// After the clear stage: every cell of the clipped area is cleared, every
/// other cell keeps what was under it.
pub open spec fn clear_at(outer: Area, under: DestCell, x: int, y: int) -> DestCell {
    if outer.contains(x, y) {
        DestCell::cleared_spec()
    } else {
        under
    }
}

/// After the decoration stage: the cells of the clipped area that the inner
/// area does not cover carry the decoration's glyph and style.
pub open spec fn deco_at(
    block: Option<Decoration>,
    outer: Area,
    inner: Area,
    under: DestCell,
    x: int,
    y: int,
) -> DestCell {
    if block is Some && outer.contains(x, y) && !inner.contains(x, y) {
        block->0.cell_spec_at(outer, x, y)
    } else {
        under
    }
}

/// After the baseline stage: a configured baseline style is patched onto
/// every cell of the inner area.
pub open spec fn base_at(
    style: Option<Style>,
    inner: Area,
    under: DestCell,
    x: int,
    y: int,
) -> DestCell {
    if style is Some && inner.contains(x, y) {
        under.styled_spec(style->0)
    } else {
        under
    }
}

/// After the content stage: a cell of the inner area whose logical
/// coordinate falls on a screen cell with contents is replaced by that
/// cell's glyph and style; everything else is left alone.
pub open spec fn content_at<S: Screen>(
    screen: &S,
    inner: Area,
    under: DestCell,
    x: int,
    y: int,
) -> DestCell {
    if inner.contains(x, y) {
        match screen.cell_spec((y - inner.y) as u16, (x - inner.x) as u16) {
            Some(m) => if m.has_contents {
                m.to_dest_spec()
            } else {
                under
            },
            None => under,
        }
    } else {
        under
    }
}

/// Whether the cursor is drawn at all: its spec and the screen both allow
/// it, and its logical position falls inside the inner area.
pub open spec fn cursor_shown<S: Screen>(screen: &S, cursor: Cursor, inner: Area) -> bool {
    &&& cursor.show
    &&& !screen.hidden_spec()
    &&& screen.cursor_spec().0 < inner.height
    &&& screen.cursor_spec().1 < inner.width
}

/// After the cursor stage: at the cursor's destination cell, contents under
/// the cursor keep their glyph and take the overlay style, a blank cell
/// takes the cursor's glyph and style; a cursor that is hidden, outside the
/// inner area or outside the screen changes nothing.
pub open spec fn cursor_at<S: Screen>(
    screen: &S,
    cursor: Cursor,
    inner: Area,
    under: DestCell,
    x: int,
    y: int,
) -> DestCell {
    if cursor_shown(screen, cursor, inner) && x == inner.x + screen.cursor_spec().1 && y == inner.y
        + screen.cursor_spec().0 {
        match screen.cell_spec(screen.cursor_spec().0, screen.cursor_spec().1) {
            Some(m) => if m.has_contents {
                under.styled_spec(cursor.overlay_style)
            } else {
                DestCell { glyph: cursor.symbol, style: under.style.patched_spec(cursor.style) }
            },
            None => under,
        }
    } else {
        under
    }
}

/// The inner area a configuration leaves for content inside the clipped
/// area.
pub open spec fn inner_area(block: Option<Decoration>, outer: Area) -> Area {
    match block {
        Some(d) => d.inner_spec(outer),
        None => outer,
    }
}

/// What the four stages before the cursor overlay leave in the destination
/// cell at `(x, y)`: ordinary screen content, with no cursor-specific
/// modification.
pub open spec fn pre_cursor_at<S: Screen>(
    screen: &S,
    block: Option<Decoration>,
    style: Option<Style>,
    area: Area,
    sw: u16,
    sh: u16,
    under: DestCell,
    x: int,
    y: int,
) -> DestCell {
    let outer = area.clipped_spec(sw, sh);
    let inner = inner_area(block, outer);
    content_at(
        screen,
        inner,
        base_at(style, inner, deco_at(block, outer, inner, clear_at(outer, under, x, y), x, y), x, y),
        x,
        y,
    )
}

/// What one render call with the given configuration leaves in the
/// destination cell at `(x, y)`, when `under` lay there before and the
/// destination surface is `sw` by `sh` cells.
pub open spec fn rendered_at<S: Screen>(
    screen: &S,
    block: Option<Decoration>,
    style: Option<Style>,
    cursor: Cursor,
    area: Area,
    sw: u16,
    sh: u16,
    under: DestCell,
    x: int,
    y: int,
) -> DestCell {
    let outer = area.clipped_spec(sw, sh);
    let inner = inner_area(block, outer);
    cursor_at(
        screen,
        cursor,
        inner,
        pre_cursor_at(screen, block, style, area, sw, sh, under, x, y),
        x,
        y,
    )
}

/// Clears every cell of `outer`.
pub fn clear_pass(buf: &mut Surface, outer: Area)
    requires
        old(buf).wf(),
        outer.right() <= old(buf).width_spec(),
        outer.bottom() <= old(buf).height_spec(),
    ensures
        final(buf).wf(),
        final(buf).width_spec() == old(buf).width_spec(),
        final(buf).height_spec() == old(buf).height_spec(),
        forall|x: int, y: int|
            0 <= x < old(buf).width_spec() && 0 <= y < old(buf).height_spec() ==> final(buf).at(
                x,
                y,
            ) == clear_at(outer, old(buf).at(x, y), x, y),
{
    let ghost buf0 = *buf;
    let mut j: u16 = 0;
    while j < outer.height
        invariant
            buf.wf(),
            buf.width_spec() == buf0.width_spec(),
            buf.height_spec() == buf0.height_spec(),
            outer.right() <= buf0.width_spec(),
            outer.bottom() <= buf0.height_spec(),
            j <= outer.height,
            forall|x: int, y: int|
                0 <= x < buf0.width_spec() && 0 <= y < buf0.height_spec() ==> buf.at(x, y) == (
                if outer.contains(x, y) && y < outer.y + j {
                    DestCell::cleared_spec()
                } else {
                    buf0.at(x, y)
                }),
        decreases outer.height - j,
    {
        let mut i: u16 = 0;
        while i < outer.width
            invariant
                buf.wf(),
                buf.width_spec() == buf0.width_spec(),
                buf.height_spec() == buf0.height_spec(),
                outer.right() <= buf0.width_spec(),
                outer.bottom() <= buf0.height_spec(),
                i <= outer.width,
                j < outer.height,
                forall|x: int, y: int|
                    0 <= x < buf0.width_spec() && 0 <= y < buf0.height_spec() ==> buf.at(x, y) == (
                    if outer.contains(x, y) && (y < outer.y + j || (y == outer.y + j && x < outer.x
                        + i)) {
                        DestCell::cleared_spec()
                    } else {
                        buf0.at(x, y)
                    }),
            decreases outer.width - i,
        {
            buf.put(outer.x + i, outer.y + j, DestCell::cleared());
            i = i + 1;
        }
        j = j + 1;
    }
}

/// Paints the decoration's glyphs and style onto every cell of `outer` that
/// `inner` does not cover.
pub fn deco_pass(d: &Decoration, outer: Area, inner: Area, buf: &mut Surface)
    requires
        old(buf).wf(),
        outer.right() <= old(buf).width_spec(),
        outer.bottom() <= old(buf).height_spec(),
    ensures
        final(buf).wf(),
        final(buf).width_spec() == old(buf).width_spec(),
        final(buf).height_spec() == old(buf).height_spec(),
        forall|x: int, y: int|
            0 <= x < old(buf).width_spec() && 0 <= y < old(buf).height_spec() ==> final(buf).at(
                x,
                y,
            ) == (if outer.contains(x, y) && !inner.contains(x, y) {
                d.cell_spec_at(outer, x, y)
            } else {
                old(buf).at(x, y)
            }),
{
    let ghost buf0 = *buf;
    let deco_style: CellStyle = CellStyle::reset().patched(d.style);
    let mut j: u16 = 0;
    while j < outer.height
        invariant
            buf.wf(),
            buf.width_spec() == buf0.width_spec(),
            buf.height_spec() == buf0.height_spec(),
            outer.right() <= buf0.width_spec(),
            outer.bottom() <= buf0.height_spec(),
            deco_style == CellStyle::reset_spec().patched_spec(d.style),
            j <= outer.height,
            forall|x: int, y: int|
                0 <= x < buf0.width_spec() && 0 <= y < buf0.height_spec() ==> buf.at(x, y) == (
                if outer.contains(x, y) && !inner.contains(x, y) && y < outer.y + j {
                    d.cell_spec_at(outer, x, y)
                } else {
                    buf0.at(x, y)
                }),
        decreases outer.height - j,
    {
        let mut i: u16 = 0;
        while i < outer.width
            invariant
                buf.wf(),
                buf.width_spec() == buf0.width_spec(),
                buf.height_spec() == buf0.height_spec(),
                outer.right() <= buf0.width_spec(),
                outer.bottom() <= buf0.height_spec(),
                deco_style == CellStyle::reset_spec().patched_spec(d.style),
                i <= outer.width,
                j < outer.height,
                forall|x: int, y: int|
                    0 <= x < buf0.width_spec() && 0 <= y < buf0.height_spec() ==> buf.at(x, y) == (
                    if outer.contains(x, y) && !inner.contains(x, y) && (y < outer.y + j || (y
                        == outer.y + j && x < outer.x + i)) {
                        d.cell_spec_at(outer, x, y)
                    } else {
                        buf0.at(x, y)
                    }),
            decreases outer.width - i,
        {
            let x = outer.x + i;
            let y = outer.y + j;
            if !inner.has(x, y) {
                let glyph = d.glyph_at(outer, x, y);
                buf.put(x, y, DestCell { glyph, style: deco_style });
            }
            i = i + 1;
        }
        j = j + 1;
    }
}

/// Patches the baseline style onto every cell of `inner`.
pub fn base_pass(style: Style, inner: Area, buf: &mut Surface)
    requires
        old(buf).wf(),
        inner.right() <= old(buf).width_spec(),
        inner.bottom() <= old(buf).height_spec(),
    ensures
        final(buf).wf(),
        final(buf).width_spec() == old(buf).width_spec(),
        final(buf).height_spec() == old(buf).height_spec(),
        forall|x: int, y: int|
            0 <= x < old(buf).width_spec() && 0 <= y < old(buf).height_spec() ==> final(buf).at(
                x,
                y,
            ) == (if inner.contains(x, y) {
                old(buf).at(x, y).styled_spec(style)
            } else {
                old(buf).at(x, y)
            }),
{
    let ghost buf0 = *buf;
    let mut j: u16 = 0;
    while j < inner.height
        invariant
            buf.wf(),
            buf.width_spec() == buf0.width_spec(),
            buf.height_spec() == buf0.height_spec(),
            inner.right() <= buf0.width_spec(),
            inner.bottom() <= buf0.height_spec(),
            j <= inner.height,
            forall|x: int, y: int|
                0 <= x < buf0.width_spec() && 0 <= y < buf0.height_spec() ==> buf.at(x, y) == (
                if inner.contains(x, y) && y < inner.y + j {
                    buf0.at(x, y).styled_spec(style)
                } else {
                    buf0.at(x, y)
                }),
        decreases inner.height - j,
    {
        let mut i: u16 = 0;
        while i < inner.width
            invariant
                buf.wf(),
                buf.width_spec() == buf0.width_spec(),
                buf.height_spec() == buf0.height_spec(),
                inner.right() <= buf0.width_spec(),
                inner.bottom() <= buf0.height_spec(),
                i <= inner.width,
                j < inner.height,
                forall|x: int, y: int|
                    0 <= x < buf0.width_spec() && 0 <= y < buf0.height_spec() ==> buf.at(x, y) == (
                    if inner.contains(x, y) && (y < inner.y + j || (y == inner.y + j && x < inner.x
                        + i)) {
                        buf0.at(x, y).styled_spec(style)
                    } else {
                        buf0.at(x, y)
                    }),
            decreases inner.width - i,
        {
            let x = inner.x + i;
            let y = inner.y + j;
            let dc = buf.get(x, y).unwrap().styled(style);
            buf.put(x, y, dc);
            i = i + 1;
        }
        j = j + 1;
    }
}

/// Writes every screen cell with contents whose logical coordinate falls
/// inside `inner` onto the surface, one to one and unscaled.
pub fn content_pass<S: Screen>(screen: &S, inner: Area, buf: &mut Surface)
    requires
        old(buf).wf(),
        inner.right() <= old(buf).width_spec(),
        inner.bottom() <= old(buf).height_spec(),
    ensures
        final(buf).wf(),
        final(buf).width_spec() == old(buf).width_spec(),
        final(buf).height_spec() == old(buf).height_spec(),
        forall|x: int, y: int|
            0 <= x < old(buf).width_spec() && 0 <= y < old(buf).height_spec() ==> final(buf).at(
                x,
                y,
            ) == content_at(screen, inner, old(buf).at(x, y), x, y),
{
    let ghost buf0 = *buf;
    let mut r: u16 = 0;
    while r < inner.height
        invariant
            buf.wf(),
            buf.width_spec() == buf0.width_spec(),
            buf.height_spec() == buf0.height_spec(),
            inner.right() <= buf0.width_spec(),
            inner.bottom() <= buf0.height_spec(),
            r <= inner.height,
            forall|x: int, y: int|
                0 <= x < buf0.width_spec() && 0 <= y < buf0.height_spec() ==> buf.at(x, y) == (
                if inner.contains(x, y) && y < inner.y + r {
                    content_at(screen, inner, buf0.at(x, y), x, y)
                } else {
                    buf0.at(x, y)
                }),
        decreases inner.height - r,
    {
        let mut c: u16 = 0;
        while c < inner.width
            invariant
                buf.wf(),
                buf.width_spec() == buf0.width_spec(),
                buf.height_spec() == buf0.height_spec(),
                inner.right() <= buf0.width_spec(),
                inner.bottom() <= buf0.height_spec(),
                c <= inner.width,
                r < inner.height,
                forall|x: int, y: int|
                    0 <= x < buf0.width_spec() && 0 <= y < buf0.height_spec() ==> buf.at(x, y) == (
                    if inner.contains(x, y) && (y < inner.y + r || (y == inner.y + r && x < inner.x
                        + c)) {
                        content_at(screen, inner, buf0.at(x, y), x, y)
                    } else {
                        buf0.at(x, y)
                    }),
            decreases inner.width - c,
        {
            let x = inner.x + c;
            let y = inner.y + r;
            match screen.cell(r, c) {
                Some(sc) => {
                    if sc.has_contents() {
                        let mut dc = buf.get(x, y).unwrap();
                        sc.apply(&mut dc);
                        buf.put(x, y, dc);
                    }
                },
                None => {},
            }
            c = c + 1;
        }
        r = r + 1;
    }
}

/// Overlays the cursor, always last: on contents only the overlay style, on
/// a blank cell the cursor's own glyph and style.
pub fn cursor_pass<S: Screen>(screen: &S, cursor: &Cursor, inner: Area, buf: &mut Surface)
    requires
        old(buf).wf(),
        inner.right() <= old(buf).width_spec(),
        inner.bottom() <= old(buf).height_spec(),
    ensures
        final(buf).wf(),
        final(buf).width_spec() == old(buf).width_spec(),
        final(buf).height_spec() == old(buf).height_spec(),
        forall|x: int, y: int|
            0 <= x < old(buf).width_spec() && 0 <= y < old(buf).height_spec() ==> final(buf).at(
                x,
                y,
            ) == cursor_at(screen, *cursor, inner, old(buf).at(x, y), x, y),
{
    if cursor.show && !screen.hide_cursor() {
        let (crow, ccol) = screen.cursor_position();
        if crow < inner.height && ccol < inner.width {
            match screen.cell(crow, ccol) {
                Some(sc) => {
                    let x = inner.x + ccol;
                    let y = inner.y + crow;
                    let under = buf.get(x, y).unwrap();
                    let dc = if sc.has_contents() {
                        under.styled(cursor.overlay_style)
                    } else {
                        DestCell { glyph: cursor.symbol, style: under.style.patched(cursor.style) }
                    };
                    buf.put(x, y, dc);
                },
                None => {},
            }
        }
    }
}

} // verus!

