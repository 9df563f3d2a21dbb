use tui_term::area::Area;
use tui_term::decoration::Decoration;
use tui_term::screen::{CellModel, GridScreen};
use tui_term::style::{CellStyle, Color, Modifiers, Style};
use tui_term::surface::Surface;
use tui_term::widget::PseudoTerminal;

fn no_mods() -> Modifiers {
    Modifiers { bold: false, italic: false, underline: false, reversed: false }
}

fn content(glyph: char) -> CellModel {
    CellModel {
        has_contents: true,
        glyph,
        style: CellStyle { fg: Color::Reset, bg: Color::Reset, mods: no_mods() },
    }
}

fn filled_screen(rows: u16, cols: u16, glyph: char) -> GridScreen {
    let mut screen = GridScreen::new(rows, cols);
    for r in 0..rows {
        for c in 0..cols {
            screen.set_cell(r, c, content(glyph));
        }
    }
    screen
}

#[test]
fn inner_area_is_outer_minus_margins() {
    let d = Decoration::new().all_borders();
    let inner = d.inner(Area::new(2, 3, 10, 6));
    assert_eq!(inner, Area::new(3, 4, 8, 4));

    let only_top = Decoration::new().borders(true, false, false, false);
    assert_eq!(only_top.inner(Area::new(0, 0, 5, 5)), Area::new(0, 1, 5, 4));

    let title_only = Decoration::new().title(vec!['t']);
    assert_eq!(title_only.inner(Area::new(0, 0, 5, 5)), Area::new(0, 1, 5, 4));

    let none = Decoration::new();
    assert_eq!(none.inner(Area::new(1, 1, 4, 4)), Area::new(1, 1, 4, 4));
}

#[test]
fn inner_area_clamps_instead_of_underflowing() {
    let d = Decoration::new().all_borders();
    let inner = d.inner(Area::new(0, 0, 1, 1));
    assert_eq!(inner.width, 0);
    assert_eq!(inner.height, 0);
    let empty = d.inner(Area::new(4, 4, 0, 0));
    assert_eq!(empty.width, 0);
    assert_eq!(empty.height, 0);
}

#[test]
fn border_glyphs_drawn_and_content_inset() {
    // A screen larger than the inner area: its content must stay inside the
    // borders, and never overwrite a decoration cell.
    let screen = filled_screen(20, 20, '#');
    let d = Decoration::new().all_borders();
    let mut surf = Surface::new(6, 5);
    PseudoTerminal::new(&screen).block(d).render(Area::new(0, 0, 6, 5), &mut surf);

    assert_eq!(surf.get(0, 0).unwrap().glyph, '\u{250c}');
    assert_eq!(surf.get(5, 0).unwrap().glyph, '\u{2510}');
    assert_eq!(surf.get(0, 4).unwrap().glyph, '\u{2514}');
    assert_eq!(surf.get(5, 4).unwrap().glyph, '\u{2518}');
    for x in 1..5u16 {
        assert_eq!(surf.get(x, 0).unwrap().glyph, '\u{2500}');
        assert_eq!(surf.get(x, 4).unwrap().glyph, '\u{2500}');
    }
    for y in 1..4u16 {
        assert_eq!(surf.get(0, y).unwrap().glyph, '\u{2502}');
        assert_eq!(surf.get(5, y).unwrap().glyph, '\u{2502}');
    }
    for y in 1..4u16 {
        for x in 1..5u16 {
            assert_eq!(surf.get(x, y).unwrap().glyph, '#');
        }
    }
}

#[test]
fn title_glyphs_on_top_row() {
    let screen = GridScreen::new(1, 1);
    let d = Decoration::new().all_borders().title(vec!['l', 's']);
    let mut surf = Surface::new(8, 3);
    PseudoTerminal::new(&screen).block(d).render(Area::new(0, 0, 8, 3), &mut surf);

    assert_eq!(surf.get(0, 0).unwrap().glyph, '\u{250c}');
    assert_eq!(surf.get(1, 0).unwrap().glyph, 'l');
    assert_eq!(surf.get(2, 0).unwrap().glyph, 's');
    assert_eq!(surf.get(3, 0).unwrap().glyph, '\u{2500}');
    assert_eq!(surf.get(7, 0).unwrap().glyph, '\u{2510}');
}

#[test]
fn title_without_borders_takes_one_row() {
    let screen = filled_screen(5, 5, '#');
    let d = Decoration::new().title(vec!['h', 'i']);
    let mut surf = Surface::new(4, 3);
    PseudoTerminal::new(&screen).block(d).render(Area::new(0, 0, 4, 3), &mut surf);

    assert_eq!(surf.get(0, 0).unwrap().glyph, 'h');
    assert_eq!(surf.get(1, 0).unwrap().glyph, 'i');
    assert_eq!(surf.get(2, 0).unwrap().glyph, ' ');
    // Content starts one row down, not inset horizontally.
    assert_eq!(surf.get(0, 1).unwrap().glyph, '#');
    assert_eq!(surf.get(3, 2).unwrap().glyph, '#');
}

#[test]
fn long_title_is_cut_at_the_border() {
    let screen = GridScreen::new(1, 1);
    let d = Decoration::new().all_borders().title(vec!['a', 'b', 'c', 'd', 'e', 'f']);
    let mut surf = Surface::new(5, 3);
    PseudoTerminal::new(&screen).block(d).render(Area::new(0, 0, 5, 3), &mut surf);

    assert_eq!(surf.get(1, 0).unwrap().glyph, 'a');
    assert_eq!(surf.get(2, 0).unwrap().glyph, 'b');
    assert_eq!(surf.get(3, 0).unwrap().glyph, 'c');
    assert_eq!(surf.get(4, 0).unwrap().glyph, '\u{2510}');
}

#[test]
fn decoration_keeps_its_own_style_under_override() {
    // The decoration paints itself with its own style; the configuration's
    // baseline style touches only the inner area.
    let screen = GridScreen::new(1, 1);
    let d = Decoration::new().all_borders().style(Style::new().fg(Color::Red));
    let base = Style::new().bg(Color::Blue).bold();
    let mut surf = Surface::new(4, 4);
    PseudoTerminal::new(&screen).block(d).style(base).render(Area::new(0, 0, 4, 4), &mut surf);

    let border = surf.get(0, 0).unwrap();
    assert_eq!(border.style.fg, Color::Red);
    assert_eq!(border.style.bg, Color::Reset);
    assert!(!border.style.mods.bold);

    // An inner cell outside the screen keeps the baseline.
    let inner = surf.get(2, 2).unwrap();
    assert_eq!(inner.style.bg, Color::Blue);
    assert!(inner.style.mods.bold);
}

#[test]
fn decoration_on_tiny_area_completes() {
    let screen = filled_screen(3, 3, '#');
    let d = Decoration::new().all_borders().title(vec!['t', 'i', 'n', 'y']);
    let mut surf = Surface::new(2, 2);
    PseudoTerminal::new(&screen).block(d).render(Area::new(0, 0, 1, 1), &mut surf);
    assert_eq!(surf.get(0, 0).unwrap().glyph, '\u{250c}');

    let mut surf2 = Surface::new(2, 2);
    PseudoTerminal::new(&screen).block(Decoration::new().all_borders()).render(
        Area::new(0, 0, 2, 2),
        &mut surf2,
    );
    assert_eq!(surf2.get(0, 0).unwrap().glyph, '\u{250c}');
    assert_eq!(surf2.get(1, 0).unwrap().glyph, '\u{2510}');
    assert_eq!(surf2.get(0, 1).unwrap().glyph, '\u{2514}');
    assert_eq!(surf2.get(1, 1).unwrap().glyph, '\u{2518}');
}
