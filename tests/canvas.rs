use conway_life::color::Color;
use conway_life::framebuffer::Framebuffer;
use conway_life::line::Point;

fn drawn(fb: &Framebuffer, color: Color) -> Vec<(u32, u32)> {
    let (w, h) = fb.size();
    let mut out = Vec::new();
    for y in 0..h {
        for x in 0..w {
            if fb.get_color(x, y) == color {
                out.push((x, y));
            }
        }
    }
    out
}

#[test]
fn new_canvas_is_background() {
    let fb = Framebuffer::new(4, 3, Color::purple());
    assert_eq!(fb.width(), 4);
    assert_eq!(fb.height(), 3);
    assert_eq!(fb.size(), (4, 3));
    assert_eq!(fb.pixels().len(), 12);
    assert!(fb.pixels().iter().all(|c| *c == Color::purple()));
}

#[test]
fn set_pixel_writes_current_color() {
    let mut fb = Framebuffer::new(4, 3, Color::black());
    fb.set_current_color(Color::red());
    fb.set_pixel(2, 1);
    assert_eq!(fb.get_color(2, 1), Color::red());
    assert_eq!(fb.pixels()[1 * 4 + 2], Color::red());
    assert_eq!(drawn(&fb, Color::red()), vec![(2, 1)]);
}

#[test]
fn set_pixel_at_boundary_is_ignored() {
    let mut fb = Framebuffer::new(4, 3, Color::black());
    fb.set_current_color(Color::red());
    fb.set_pixel(4, 0);
    fb.set_pixel(0, 3);
    fb.set_pixel(4, 3);
    fb.set_pixel(u32::MAX, u32::MAX);
    assert!(fb.pixels().iter().all(|c| *c == Color::black()));
}

#[test]
fn default_draw_color_is_white() {
    let mut fb = Framebuffer::new(2, 2, Color::black());
    fb.set_pixel(0, 0);
    assert_eq!(fb.get_color(0, 0), Color::white());
}

#[test]
fn clear_restores_background() {
    let mut fb = Framebuffer::new(3, 3, Color::black());
    fb.set_pixel(1, 1);
    fb.set_background_color(Color::gold());
    fb.clear();
    assert!(fb.pixels().iter().all(|c| *c == Color::gold()));
}

#[test]
fn resize_discards_contents() {
    let mut fb = Framebuffer::new(3, 3, Color::black());
    fb.set_pixel(1, 1);
    fb.resize(5, 2);
    assert_eq!(fb.size(), (5, 2));
    assert_eq!(fb.pixels().len(), 10);
    assert!(fb.pixels().iter().all(|c| *c == Color::black()));
}

#[test]
fn get_color_off_canvas_is_background() {
    let fb = Framebuffer::new(3, 3, Color::lime());
    assert_eq!(fb.get_color(3, 0), Color::lime());
}

#[test]
fn fill_rect_is_clipped() {
    let mut fb = Framebuffer::new(4, 4, Color::black());
    fb.set_current_color(Color::orange());
    fb.fill_rect(-1, 2, 3, 5);
    assert_eq!(
        drawn(&fb, Color::orange()),
        vec![(0, 2), (1, 2), (0, 3), (1, 3)]
    );
}

#[test]
fn horizontal_line_has_six_pixels() {
    let mut fb = Framebuffer::new(10, 10, Color::black());
    conway_life::line::line(&mut fb, Point { x: 0, y: 0 }, Point { x: 5, y: 0 });
    let px = drawn(&fb, Color::white());
    assert_eq!(px, vec![(0, 0), (1, 0), (2, 0), (3, 0), (4, 0), (5, 0)]);
}

#[test]
fn degenerate_line_is_one_pixel() {
    let mut fb = Framebuffer::new(10, 10, Color::black());
    conway_life::line::line(&mut fb, Point { x: 3, y: 4 }, Point { x: 3, y: 4 });
    assert_eq!(drawn(&fb, Color::white()), vec![(3, 4)]);
}

#[test]
fn diagonal_and_steep_lines() {
    let mut fb = Framebuffer::new(10, 10, Color::black());
    conway_life::line::line(&mut fb, Point { x: 3, y: 3 }, Point { x: 0, y: 0 });
    assert_eq!(drawn(&fb, Color::white()), vec![(0, 0), (1, 1), (2, 2), (3, 3)]);
    let mut fb = Framebuffer::new(10, 10, Color::black());
    conway_life::line::line(&mut fb, Point { x: 0, y: 0 }, Point { x: 1, y: 3 });
    assert_eq!(drawn(&fb, Color::white()), vec![(0, 0), (0, 1), (1, 2), (1, 3)]);
}

#[test]
fn line_off_canvas_is_clipped() {
    let mut fb = Framebuffer::new(4, 4, Color::black());
    conway_life::line::line(&mut fb, Point { x: -2, y: 1 }, Point { x: 6, y: 1 });
    assert_eq!(drawn(&fb, Color::white()), vec![(0, 1), (1, 1), (2, 1), (3, 1)]);
}
