use tui_term::area::Area;
use tui_term::screen::{CellModel, GridScreen};
use tui_term::style::{CellStyle, Color, Modifiers, Style};
use tui_term::surface::{DestCell, Surface};
use tui_term::widget::PseudoTerminal;

fn no_mods() -> Modifiers {
    Modifiers { bold: false, italic: false, underline: false, reversed: false }
}

fn reset_style() -> CellStyle {
    CellStyle { fg: Color::Reset, bg: Color::Reset, mods: no_mods() }
}

fn cleared() -> DestCell {
    DestCell { glyph: ' ', style: reset_style() }
}

fn content(glyph: char) -> CellModel {
    CellModel { has_contents: true, glyph, style: reset_style() }
}

/// A screen whose cell at (r, c) shows a letter derived from (r, c).
fn lettered_screen(rows: u16, cols: u16) -> GridScreen {
    let mut screen = GridScreen::new(rows, cols);
    for r in 0..rows {
        for c in 0..cols {
            let letter = (b'a' + (((r as u32 * 7 + c as u32) % 26) as u8)) as char;
            screen.set_cell(r, c, content(letter));
        }
    }
    screen
}

fn letter_at(r: u16, c: u16) -> char {
    (b'a' + (((r as u32 * 7 + c as u32) % 26) as u8)) as char
}

#[test]
fn blank_screen_default_config() {
    // A blank screen with the default configuration shows the default
    // solid-block cursor glyph at (0, 0) in gray; every other cell is left
    // as cleared.
    let screen = GridScreen::new(24, 80);
    let mut surf = Surface::new(80, 24);
    let term = PseudoTerminal::new(&screen);
    term.render(Area::new(0, 0, 80, 24), &mut surf);

    let cursor_cell = surf.get(0, 0).unwrap();
    assert_eq!(cursor_cell.glyph, '\u{2588}');
    assert_eq!(cursor_cell.style.fg, Color::Gray);
    assert_eq!(cursor_cell.style.bg, Color::Reset);
    assert_eq!(cursor_cell.style.mods, no_mods());
    for y in 0..24u16 {
        for x in 0..80u16 {
            if !(x == 0 && y == 0) {
                assert_eq!(surf.get(x, y).unwrap(), cleared());
            }
        }
    }
}

#[test]
fn large_screen_truncates_to_small_destination() {
    // A logical screen of 80 columns by 24 rows rendered into an 80 by 4
    // destination truncates to the top 4 rows exactly.
    let screen = lettered_screen(24, 80);
    let mut surf = Surface::new(80, 4);
    let term = PseudoTerminal::new(&screen);
    term.render(Area::new(0, 0, 80, 4), &mut surf);

    for y in 0..4u16 {
        for x in 0..80u16 {
            assert_eq!(surf.get(x, y).unwrap().glyph, letter_at(y, x));
        }
    }
}

#[test]
fn small_screen_leaves_excess_destination_blank() {
    let screen = lettered_screen(2, 3);
    let mut surf = Surface::new(10, 5);
    let term = PseudoTerminal::new(&screen);
    term.render(Area::new(0, 0, 10, 5), &mut surf);

    for y in 0..5u16 {
        for x in 0..10u16 {
            if x == 0 && y == 0 {
                // The cursor sits on content there: glyph kept.
                assert_eq!(surf.get(x, y).unwrap().glyph, letter_at(0, 0));
            } else if y < 2 && x < 3 {
                assert_eq!(surf.get(x, y).unwrap().glyph, letter_at(y, x));
            } else {
                assert_eq!(surf.get(x, y).unwrap(), cleared());
            }
        }
    }
}

#[test]
fn rendering_twice_is_identical() {
    // The same configuration and area rendered into two independently
    // cleared destinations yield bit-identical results.
    let screen = lettered_screen(6, 6);
    let area = Area::new(1, 1, 4, 4);

    let mut surf1 = Surface::new(8, 8);
    PseudoTerminal::new(&screen).render(area, &mut surf1);
    let mut surf2 = Surface::new(8, 8);
    PseudoTerminal::new(&screen).render(area, &mut surf2);

    for y in 0..8u16 {
        for x in 0..8u16 {
            assert_eq!(surf1.get(x, y).unwrap(), surf2.get(x, y).unwrap());
        }
    }
}

#[test]
fn shrunk_area_leaves_no_stale_glyphs() {
    // Two successive frames, each into a destination the host cleared: after
    // the second call with a smaller area, nothing outside that smaller area
    // carries a glyph of the first frame.
    let screen = lettered_screen(8, 8);

    let mut first = Surface::new(8, 8);
    PseudoTerminal::new(&screen).render(Area::new(0, 0, 8, 8), &mut first);
    assert_eq!(first.get(6, 6).unwrap().glyph, letter_at(6, 6));

    let mut second = Surface::new(8, 8);
    PseudoTerminal::new(&screen).render(Area::new(0, 0, 3, 2), &mut second);
    for y in 0..8u16 {
        for x in 0..8u16 {
            if x >= 3 || y >= 2 {
                assert_eq!(second.get(x, y).unwrap(), cleared());
            }
        }
    }
}

#[test]
fn zero_sized_areas_complete() {
    let screen = lettered_screen(4, 4);
    let mut surf = Surface::new(6, 6);
    PseudoTerminal::new(&screen).render(Area::new(0, 0, 0, 6), &mut surf);
    PseudoTerminal::new(&screen).render(Area::new(0, 0, 6, 0), &mut surf);
    PseudoTerminal::new(&screen).render(Area::new(0, 0, 0, 0), &mut surf);
    for y in 0..6u16 {
        for x in 0..6u16 {
            assert_eq!(surf.get(x, y).unwrap(), cleared());
        }
    }
}

#[test]
fn area_beyond_surface_is_clipped() {
    let screen = lettered_screen(40, 40);
    let mut surf = Surface::new(4, 4);
    PseudoTerminal::new(&screen).render(Area::new(2, 3, 30, 30), &mut surf);
    // Only the two rightmost columns of the bottom row lie on the surface.
    assert_eq!(surf.get(2, 3).unwrap().glyph, letter_at(0, 0));
    assert_eq!(surf.get(3, 3).unwrap().glyph, letter_at(0, 1));
    assert_eq!(surf.get(0, 0).unwrap(), cleared());
    assert_eq!(surf.get(1, 3).unwrap(), cleared());
}

#[test]
fn area_fully_off_surface_completes() {
    let screen = lettered_screen(4, 4);
    let mut surf = Surface::new(4, 4);
    PseudoTerminal::new(&screen).render(Area::new(100, 100, 10, 10), &mut surf);
    for y in 0..4u16 {
        for x in 0..4u16 {
            assert_eq!(surf.get(x, y).unwrap(), cleared());
        }
    }
}

#[test]
fn huge_screen_tiny_surface_completes() {
    let screen = GridScreen::new(1000, 1000);
    let mut surf = Surface::new(1, 1);
    PseudoTerminal::new(&screen).render(Area::new(0, 0, u16::MAX, u16::MAX), &mut surf);
    assert_eq!(surf.get(0, 0).unwrap().glyph, '\u{2588}');
}

#[test]
fn empty_surface_completes() {
    let screen = lettered_screen(4, 4);
    let mut surf = Surface::new(0, 0);
    PseudoTerminal::new(&screen).render(Area::new(0, 0, 10, 10), &mut surf);
    assert_eq!(surf.width(), 0);
    assert_eq!(surf.height(), 0);
    assert!(surf.get(0, 0).is_none());
}

#[test]
fn every_size_combination_completes() {
    // Surfaces, areas and screens of every mismatched size render without
    // failing, truncating or padding as needed.
    let sizes: [(u16, u16); 5] = [(0, 0), (1, 1), (3, 5), (8, 2), (40, 40)];
    for &(sw, sh) in &sizes {
        for &(aw, ah) in &sizes {
            for &(rows, cols) in &sizes {
                let screen = lettered_screen(rows, cols);
                let mut surf = Surface::new(sw, sh);
                let term = PseudoTerminal::new(&screen);
                term.render(Area::new(1, 0, aw, ah), &mut surf);
            }
        }
    }
}

#[test]
fn baseline_style_fills_unwritten_cells() {
    let mut screen = GridScreen::new(2, 2);
    screen.set_cell(0, 1, content('x'));
    screen.set_cursor(1, 1);
    screen.set_hidden(true);
    let mut surf = Surface::new(3, 3);
    let style = Style::new().bg(Color::Blue).bold();
    PseudoTerminal::new(&screen).style(style).render(Area::new(0, 0, 3, 3), &mut surf);

    // The written cell keeps its own (reset) style entirely.
    let written = surf.get(1, 0).unwrap();
    assert_eq!(written.glyph, 'x');
    assert_eq!(written.style, reset_style());
    // An unwritten cell inside the area carries the baseline.
    let unwritten = surf.get(2, 2).unwrap();
    assert_eq!(unwritten.glyph, ' ');
    assert_eq!(unwritten.style.bg, Color::Blue);
    assert_eq!(unwritten.style.fg, Color::Reset);
    assert!(unwritten.style.mods.bold);
}
