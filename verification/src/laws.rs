//! Laws of the compositing pipeline that hold for every screen, every
//! configuration and every destination, proved from the render contract.

use vstd::prelude::*;
use crate::area::Area;
use crate::compose::{cursor_shown, inner_area, pre_cursor_at, rendered_at};
use crate::decoration::{lemma_inner_inside, Decoration};
use crate::screen::Screen;
use crate::style::{CellStyle, Style};
use crate::surface::DestCell;
use crate::widget::Cursor;

verus! {

/// The clipped area lies on the surface.
pub proof fn lemma_clipped_on_surface(area: Area, sw: u16, sh: u16)
    ensures
        area.clipped_spec(sw, sh).right() <= sw,
        area.clipped_spec(sw, sh).bottom() <= sh,
{
}

/// What a render call leaves in a cell of the clipped area does not depend
/// on what lay there before: rendering one configuration into two
/// independently prepared destinations of the same extent leaves the same
/// cells inside the area, whatever each held.
pub proof fn lemma_render_deterministic<S: Screen>(
    screen: &S,
    block: Option<Decoration>,
    style: Option<Style>,
    cursor: Cursor,
    area: Area,
    sw: u16,
    sh: u16,
    under1: DestCell,
    under2: DestCell,
    x: int,
    y: int,
)
    requires
        area.clipped_spec(sw, sh).contains(x, y),
    ensures
        rendered_at(screen, block, style, cursor, area, sw, sh, under1, x, y) == rendered_at(
            screen,
            block,
            style,
            cursor,
            area,
            sw,
            sh,
            under2,
            x,
            y,
        ),
{
}

/// A render call never touches a cell outside the clipped area: shrinking
/// the area between two calls leaves nothing of the first call outside the
/// second call's area, because every cell inside is rewritten and every cell
/// outside is kept.
pub proof fn lemma_outside_area_untouched<S: Screen>(
    screen: &S,
    block: Option<Decoration>,
    style: Option<Style>,
    cursor: Cursor,
    area: Area,
    sw: u16,
    sh: u16,
    under: DestCell,
    x: int,
    y: int,
)
    requires
        !area.clipped_spec(sw, sh).contains(x, y),
    ensures
        rendered_at(screen, block, style, cursor, area, sw, sh, under, x, y) == under,
{
    let outer = area.clipped_spec(sw, sh);
    lemma_clipped_on_surface(area, sw, sh);
    match block {
        Some(d) => lemma_inner_inside(d, outer),
        None => {},
    }
}

/// Cursor precedence, at the cursor's destination cell: contents under the
/// cursor keep their glyph and take the overlay style; a blank screen cell
/// is replaced by the cursor's glyph with the cursor's own style over the
/// baseline.
pub proof fn lemma_cursor_precedence<S: Screen>(
    screen: &S,
    block: Option<Decoration>,
    style: Option<Style>,
    cursor: Cursor,
    area: Area,
    sw: u16,
    sh: u16,
    under: DestCell,
)
    requires
        cursor_shown(screen, cursor, inner_area(block, area.clipped_spec(sw, sh))),
    ensures
        ({
            let inner = inner_area(block, area.clipped_spec(sw, sh));
            let x = inner.x + screen.cursor_spec().1;
            let y = inner.y + screen.cursor_spec().0;
            let m = screen.cell_spec(screen.cursor_spec().0, screen.cursor_spec().1);
            let r = rendered_at(screen, block, style, cursor, area, sw, sh, under, x, y);
            &&& (m is Some && m->0.has_contents ==> r == (DestCell {
                glyph: m->0.glyph,
                style: m->0.style.patched_spec(cursor.overlay_style),
            }))
            &&& (m is Some && !m->0.has_contents ==> r == (DestCell {
                glyph: cursor.symbol,
                style: (if style is Some {
                    CellStyle::reset_spec().patched_spec(style->0)
                } else {
                    CellStyle::reset_spec()
                }).patched_spec(cursor.style),
            }))
        }),
{
    let outer = area.clipped_spec(sw, sh);
    let inner = inner_area(block, outer);
    lemma_clipped_on_surface(area, sw, sh);
    match block {
        Some(d) => lemma_inner_inside(d, outer),
        None => {},
    }
    let x = inner.x + screen.cursor_spec().1;
    let y = inner.y + screen.cursor_spec().0;
    assert(inner.contains(x as int, y as int));
    assert(outer.contains(x as int, y as int));
}

/// Visibility suppression: when the cursor spec hides the cursor or the
/// screen reports it hidden, every cell is rendered exactly as ordinary
/// screen content, with no cursor-specific modification.
pub proof fn lemma_cursor_suppressed<S: Screen>(
    screen: &S,
    block: Option<Decoration>,
    style: Option<Style>,
    cursor: Cursor,
    area: Area,
    sw: u16,
    sh: u16,
    under: DestCell,
    x: int,
    y: int,
)
    requires
        !cursor.show || screen.hidden_spec(),
    ensures
        rendered_at(screen, block, style, cursor, area, sw, sh, under, x, y) == pre_cursor_at(
            screen,
            block,
            style,
            area,
            sw,
            sh,
            under,
            x,
            y,
        ),
{
}

/// Content is mapped one to one and unscaled: a cell of the inner area whose
/// logical coordinate falls on a screen cell with contents shows exactly
/// that cell's glyph and style, unless the cursor sits there.
pub proof fn lemma_content_one_to_one<S: Screen>(
    screen: &S,
    block: Option<Decoration>,
    style: Option<Style>,
    cursor: Cursor,
    area: Area,
    sw: u16,
    sh: u16,
    under: DestCell,
    x: int,
    y: int,
)
    requires
        ({
            let inner = inner_area(block, area.clipped_spec(sw, sh));
            &&& inner.contains(x, y)
            &&& !(cursor_shown(screen, cursor, inner) && x == inner.x + screen.cursor_spec().1 && y
                == inner.y + screen.cursor_spec().0)
            &&& {
                let m = screen.cell_spec(
                    (y - inner.y) as u16,
                    (x - inner.x) as u16,
                );
                m is Some && m->0.has_contents
            }
        }),
    ensures
        ({
            let inner = inner_area(block, area.clipped_spec(sw, sh));
            rendered_at(screen, block, style, cursor, area, sw, sh, under, x, y) == screen.cell_spec(
                (y - inner.y) as u16,
                (x - inner.x) as u16,
            )->0.to_dest_spec()
        }),
{
}

/// Excess destination cells are left blank: a cell of the inner area whose
/// logical coordinate falls outside the screen's grid, with no cursor on it,
/// carries only the cleared cell with the baseline style.
pub proof fn lemma_blank_outside_screen<S: Screen>(
    screen: &S,
    block: Option<Decoration>,
    style: Option<Style>,
    cursor: Cursor,
    area: Area,
    sw: u16,
    sh: u16,
    under: DestCell,
    x: int,
    y: int,
)
    requires
        ({
            let inner = inner_area(block, area.clipped_spec(sw, sh));
            &&& inner.contains(x, y)
            &&& !(cursor_shown(screen, cursor, inner) && x == inner.x + screen.cursor_spec().1 && y
                == inner.y + screen.cursor_spec().0)
            &&& screen.cell_spec((y - inner.y) as u16, (x - inner.x) as u16) is None
        }),
    ensures
        rendered_at(screen, block, style, cursor, area, sw, sh, under, x, y) == (DestCell {
            glyph: ' ',
            style: if style is Some {
                CellStyle::reset_spec().patched_spec(style->0)
            } else {
                CellStyle::reset_spec()
            },
        }),
{
    let outer = area.clipped_spec(sw, sh);
    lemma_clipped_on_surface(area, sw, sh);
    match block {
        Some(d) => lemma_inner_inside(d, outer),
        None => {},
    }
}

/// Decoration inset exactness, first half: on an area large enough to carry
/// the decoration, the inner area equals the outer area minus the
/// decoration's margins, side by side.
pub proof fn lemma_decoration_inset(d: Decoration, outer: Area)
    requires
        outer.right() <= u16::MAX,
        outer.bottom() <= u16::MAX,
        outer.width >= d.left_margin() + d.right_margin(),
        outer.height >= d.top_margin() + d.bottom_margin(),
    ensures
        d.inner_spec(outer).x == outer.x + d.left_margin(),
        d.inner_spec(outer).y == outer.y + d.top_margin(),
        d.inner_spec(outer).width == outer.width - d.left_margin() - d.right_margin(),
        d.inner_spec(outer).height == outer.height - d.top_margin() - d.bottom_margin(),
{
}

/// Decoration inset exactness, second half: a cell the decoration occupies
/// shows the decoration's own glyph and style after the call, whatever the
/// screen's contents, the baseline style and the cursor.
pub proof fn lemma_decoration_untouched<S: Screen>(
    screen: &S,
    d: Decoration,
    style: Option<Style>,
    cursor: Cursor,
    area: Area,
    sw: u16,
    sh: u16,
    under: DestCell,
    x: int,
    y: int,
)
    requires
        area.clipped_spec(sw, sh).contains(x, y),
        !inner_area(Some(d), area.clipped_spec(sw, sh)).contains(x, y),
    ensures
        rendered_at(screen, Some(d), style, cursor, area, sw, sh, under, x, y) == d.cell_spec_at(
            area.clipped_spec(sw, sh),
            x,
            y,
        ),
{
    let outer = area.clipped_spec(sw, sh);
    let inner = inner_area(Some(d), outer);
    lemma_clipped_on_surface(area, sw, sh);
    lemma_inner_inside(d, outer);
    if cursor_shown(screen, cursor, inner) && x == inner.x + screen.cursor_spec().1 && y == inner.y
        + screen.cursor_spec().0 {
        assert(inner.contains(x, y));
    }
}

} // verus!
