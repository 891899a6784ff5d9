use conway_life::color::Color;
use conway_life::framebuffer::Framebuffer;
use conway_life::life::CellType;
use conway_life::patterns::new_world;
use conway_life::render::{render_grid, tag_color};
use conway_life::text::{chars_of, draw_char, draw_chars, draw_color_square, draw_text, glyph_dots};
use conway_life::ui::{decimal_chars, draw_ui};

#[test]
fn tag_colors_are_distinct() {
    let tags = [
        CellType::StillLife,
        CellType::Oscillator,
        CellType::Spaceship,
        CellType::Custom,
        CellType::Generated,
    ];
    for (i, a) in tags.iter().enumerate() {
        for b in tags.iter().skip(i + 1) {
            assert_ne!(tag_color(*a), tag_color(*b));
        }
    }
    assert_eq!(tag_color(CellType::StillLife), Color::gold());
    assert_eq!(tag_color(CellType::Generated), Color::orange());
}

#[test]
fn render_places_cells_and_frame() {
    // 300 by 250 canvas, 10 by 10 grid: the cell side is
    // min((300 - 100) / 10, (210 - 100) / 10) = 11, the grid's corner is
    // at ((300 - 110) / 2, (210 - 110) / 2) = (95, 50).
    let (mut g, mut t) = new_world(10, 10);
    g[0][0] = true;
    t[0][0] = CellType::StillLife;
    g[9][9] = true;
    t[9][9] = CellType::Generated;
    let mut fb = Framebuffer::new(300, 250, Color::purple());
    fb.set_pixel(0, 0);
    render_grid(&(g, t), &mut fb);
    assert_eq!(fb.get_color(0, 0), Color::purple());
    assert_eq!(fb.get_color(95, 50), Color::gold());
    assert_eq!(fb.get_color(105, 60), Color::gold());
    assert_eq!(fb.get_color(106, 60), Color::purple());
    assert_eq!(fb.get_color(194, 149), Color::orange());
    assert_eq!(fb.get_color(204, 159), Color::orange());
    assert_eq!(fb.get_color(193, 148), Color::purple());
    assert_eq!(fb.get_color(94, 49), Color::white());
    assert_eq!(fb.get_color(205, 160), Color::white());
    assert_eq!(fb.get_color(150, 49), Color::white());
    assert_eq!(fb.get_color(94, 100), Color::white());
    assert_eq!(fb.get_color(93, 49), Color::purple());
    assert_eq!(fb.get_color(150, 161), Color::purple());
}

#[test]
fn render_on_tiny_canvas_uses_one_pixel_cells() {
    let (mut g, t) = new_world(10, 10);
    g[0][0] = true;
    g[2][3] = true;
    let mut fb = Framebuffer::new(8, 8, Color::black());
    render_grid(&(g, t), &mut fb);
    // The grid does not fit: cells are one pixel wide from (0, 0).
    assert_eq!(fb.get_color(0, 0), Color::white());
    assert_eq!(fb.get_color(3, 2), Color::white());
    assert_eq!(fb.get_color(1, 1), Color::black());
}

#[test]
fn glyph_table() {
    assert_eq!(glyph_dots('A').len(), 18);
    assert_eq!(glyph_dots('I')[0], (0, 0));
    assert!(glyph_dots(' ').is_empty());
    assert!(glyph_dots('~').is_empty());
    for c in ['g', 'p', 'q', 'y', ','] {
        assert!(glyph_dots(c).iter().any(|d| d.1 >= 7));
    }
    for c in "AZaz09:.,=|-_+/".chars() {
        assert!(glyph_dots(c).iter().all(|d| d.0 < 5 && d.1 < 9));
    }
}

#[test]
fn draw_char_scales_dots() {
    let mut fb = Framebuffer::new(20, 20, Color::black());
    draw_char(&mut fb, '.', 1, 1, 2);
    // '.' has dots (2, 5) and (2, 6): squares at (5, 11) and (5, 13).
    let mut lit = Vec::new();
    for y in 0..20 {
        for x in 0..20 {
            if fb.get_color(x, y) == Color::white() {
                lit.push((x, y));
            }
        }
    }
    assert_eq!(lit, vec![(5, 11), (6, 11), (5, 12), (6, 12), (5, 13), (6, 13), (5, 14), (6, 14)]);
}

#[test]
fn unknown_character_only_advances() {
    let mut a = Framebuffer::new(40, 12, Color::black());
    draw_text(&mut a, "~.", 0, 0, 1);
    let mut b = Framebuffer::new(40, 12, Color::black());
    draw_char(&mut b, '.', 8, 0, 1);
    assert_eq!(a.pixels(), b.pixels());
    assert_eq!(a.get_color(2, 5), Color::black());
    assert_eq!(a.get_color(10, 5), Color::white());
}

#[test]
fn draw_text_matches_draw_chars() {
    let mut a = Framebuffer::new(60, 12, Color::black());
    draw_text(&mut a, "Hi 1", 2, 1, 1);
    let mut b = Framebuffer::new(60, 12, Color::black());
    draw_chars(&mut b, &vec!['H', 'i', ' ', '1'], 2, 1, 1);
    assert_eq!(a.pixels(), b.pixels());
    assert_eq!(chars_of("Hi 1"), vec!['H', 'i', ' ', '1']);
}

#[test]
fn color_square_sets_color() {
    let mut fb = Framebuffer::new(10, 10, Color::black());
    draw_color_square(&mut fb, Color::lime(), 2, -1, 2);
    assert_eq!(fb.get_color(2, 0), Color::lime());
    assert_eq!(fb.get_color(5, 2), Color::lime());
    assert_eq!(fb.get_color(6, 2), Color::black());
    assert_eq!(fb.get_color(5, 3), Color::black());
    fb.set_pixel(9, 9);
    assert_eq!(fb.get_color(9, 9), Color::lime());
}

#[test]
fn decimal_digits() {
    assert_eq!(decimal_chars(0), vec!['0']);
    assert_eq!(decimal_chars(1234), vec!['1', '2', '3', '4']);
    assert_eq!(decimal_chars(u64::MAX).len(), 20);
}

#[test]
fn ui_strip_layout() {
    let mut fb = Framebuffer::new(800, 300, Color::purple());
    draw_ui(&mut fb, true, 42, 100, 800, 300);
    // The strip covers rows 260 to 299, its first row dark gray.
    assert_eq!(fb.get_color(0, 259), Color::purple());
    assert_eq!(fb.get_color(0, 260), Color::darkgray());
    assert_eq!(fb.get_color(799, 260), Color::darkgray());
    assert_eq!(fb.get_color(0, 299), Color::black());
    // 'S' of "Status" at (10, 270): its dot (1, 0).
    assert_eq!(fb.get_color(11, 270), Color::white());
    // The legend's first swatch covers (420, 267) to (425, 272).
    assert_eq!(fb.get_color(420, 267), Color::gold());
    assert_eq!(fb.get_color(425, 272), Color::gold());
    assert_eq!(fb.get_color(426, 272), Color::black());
    fb.set_pixel(0, 0);
    assert_eq!(fb.get_color(0, 0), Color::orange());
}

#[test]
fn compact_ui_has_no_legend() {
    let mut fb = Framebuffer::new(650, 100, Color::purple());
    draw_ui(&mut fb, false, 0, 20, 650, 100);
    assert_eq!(fb.get_color(350, 67), Color::black());
    fb.set_pixel(0, 0);
    assert_eq!(fb.get_color(0, 0), Color::white());
}
