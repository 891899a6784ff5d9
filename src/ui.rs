use vstd::prelude::*;
use crate::color::Color;
use crate::framebuffer::{Framebuffer, rect_filled};
use crate::render::{UI_HEIGHT, spec_tag_color, tag_color};
use crate::life::CellType;
use crate::text::{chars_of, draw_chars, draw_color_square, draw_text, paint_text};

verus! {

/// Below this window width the status strip uses its compact layout.
pub const COMPACT_WIDTH: u32 = 700;

/// Below this window width the color legend is left out.
pub const LEGEND_MIN_WIDTH: u32 = 600;

/// From this window width on the legend uses its wide spacing.
pub const WIDE_LEGEND_WIDTH: u32 = 800;

pub open spec fn digit(d: nat) -> char {
    if d == 0 {
        '0'
    } else if d == 1 {
        '1'
    } else if d == 2 {
        '2'
    } else if d == 3 {
        '3'
    } else if d == 4 {
        '4'
    } else if d == 5 {
        '5'
    } else if d == 6 {
        '6'
    } else if d == 7 {
        '7'
    } else if d == 8 {
        '8'
    } else {
        '9'
    }
}

/// The decimal digits of `n`, most significant first, without leading zeros.
pub open spec fn decimal(n: nat) -> Seq<char>
    decreases n,
{
    if n < 10 {
        seq![digit(n)]
    } else {
        decimal(n / 10).push(digit(n % 10))
    }
}

fn digit_char(d: u64) -> (c: char)
    requires
        d < 10,
    ensures
        c == digit(d as nat),
{
    if d == 0 {
        '0'
    } else if d == 1 {
        '1'
    } else if d == 2 {
        '2'
    } else if d == 3 {
        '3'
    } else if d == 4 {
        '4'
    } else if d == 5 {
        '5'
    } else if d == 6 {
        '6'
    } else if d == 7 {
        '7'
    } else if d == 8 {
        '8'
    } else {
        '9'
    }
}

/// Writes `n` in decimal.
pub fn decimal_chars(n: u64) -> (v: Vec<char>)
    ensures
        v@ == decimal(n as nat),
    decreases n,
{
    if n < 10 {
        let mut v: Vec<char> = Vec::new();
        v.push(digit_char(n));
        proof {
            assert(v@ =~= decimal(n as nat));
        }
        v
    } else {
        let mut v = decimal_chars(n / 10);
        v.push(digit_char(n % 10));
        v
    }
}

pub open spec fn status_text(paused: bool) -> Seq<char> {
    if paused {
        "Status: PAUSED "@
    } else {
        "Status: RUNNING"@
    }
}

pub open spec fn controls_text(compact: bool) -> Seq<char> {
    if compact {
        "SPACE=Pause | R=Reset | S=Step | UP/DOWN=Speed"@
    } else {
        "Controls: SPACE=Pause | R=Reset | S=Step | UP/DOWN=Speed"@
    }
}

/// The first row of the status strip at the bottom of a window `wh` high.
pub open spec fn ui_top(wh: int) -> int {
    if wh > UI_HEIGHT {
        wh - UI_HEIGHT
    } else {
        0
    }
}

/// `img` with one legend entry: a swatch of `c` at (x, y - 3) and `label`
/// written in `c` ten pixels to its right.
pub open spec fn legend_entry(img: Seq<Seq<Color>>, c: Color, label: Seq<char>, x: int, y: int) -> Seq<
    Seq<Color>,
> {
    paint_text(rect_filled(img, x, y - 3, 6, 6, c), label, x + 10, y, 1, c)
}

/// `img` with the color legend of a window `ww` wide, its labels on row `y`.
pub open spec fn legend(img: Seq<Seq<Color>>, ww: int, y: int) -> Seq<Seq<Color>> {
    let start_x = ww - (if ww >= WIDE_LEGEND_WIDTH {
        380int
    } else {
        300int
    });
    let spacing = if ww >= WIDE_LEGEND_WIDTH {
        80int
    } else {
        60int
    };
    let a = legend_entry(img, spec_tag_color(CellType::StillLife), "SLife"@, start_x, y);
    let b = legend_entry(a, spec_tag_color(CellType::Oscillator), "Osc"@, start_x + spacing, y);
    let c = legend_entry(b, spec_tag_color(CellType::Spaceship), "Ship"@, start_x + 2 * spacing, y);
    legend_entry(c, spec_tag_color(CellType::Generated), "Gen"@, start_x + 3 * spacing, y)
}

pub open spec fn shows_legend(ww: int) -> bool {
    ww >= COMPACT_WIDTH && ww >= LEGEND_MIN_WIDTH
}

/// The status strip drawn over `img` for a window `ww` by `wh`: a black
/// band with a dark gray top line, the run state, the generation count,
/// the speed, the key bindings, and on wide windows a color legend.
pub open spec fn ui_image(
    img: Seq<Seq<Color>>,
    paused: bool,
    generation: nat,
    speed: nat,
    ww: int,
    wh: int,
) -> Seq<Seq<Color>> {
    let top = ui_top(wh);
    let white = Color::spec_white();
    let band = rect_filled(img, 0, top, ww, wh - top, Color::spec_black());
    let line = rect_filled(band, 0, top, ww, 1, Color::spec_darkgray());
    let compact = ww < COMPACT_WIDTH;
    let status = paint_text(line, status_text(paused), 10, top + 10, 1, white);
    let gen_x = if compact {
        150
    } else {
        ww / 3
    };
    let with_gen = paint_text(status, "Gen: "@ + decimal(generation), gen_x, top + 10, 1, white);
    let speed_x = if compact {
        250
    } else {
        2 * ww / 3
    };
    let with_speed = paint_text(
        with_gen,
        "Speed: "@ + decimal(speed) + "ms"@,
        speed_x,
        top + 10,
        1,
        white,
    );
    let with_controls = paint_text(with_speed, controls_text(compact), 10, top + 25, 1, white);
    if shows_legend(ww) {
        legend(with_controls, ww, top + 10)
    } else {
        with_controls
    }
}

fn draw_legend_entry(framebuffer: &mut Framebuffer, c: Color, label: &str, x: u32, y: i64)
    requires
        old(framebuffer).wf(),
        y >= 3,
    ensures
        final(framebuffer).wf(),
        final(framebuffer).spec_width() == old(framebuffer).spec_width(),
        final(framebuffer).spec_height() == old(framebuffer).spec_height(),
        final(framebuffer).background() == old(framebuffer).background(),
        final(framebuffer).current() == c,
        final(framebuffer).image() == legend_entry(old(framebuffer).image(), c, label@, x as int, y as int),
{
    draw_color_square(framebuffer, c, x, y - 3, 3);
    draw_text(framebuffer, label, x as i64 + 10, y, 1);
}

/// Draws the status strip at the bottom of a `window_width` by
/// `window_height` window. Leaves the legend's last color as the current
/// color when the legend is shown, white otherwise.
pub fn draw_ui(
    framebuffer: &mut Framebuffer,
    paused: bool,
    generation: u64,
    speed: u64,
    window_width: u32,
    window_height: u32,
)
    requires
        old(framebuffer).wf(),
    ensures
        final(framebuffer).wf(),
        final(framebuffer).spec_width() == old(framebuffer).spec_width(),
        final(framebuffer).spec_height() == old(framebuffer).spec_height(),
        final(framebuffer).background() == old(framebuffer).background(),
        final(framebuffer).current() == if shows_legend(window_width as int) {
            spec_tag_color(CellType::Generated)
        } else {
            Color::spec_white()
        },
        final(framebuffer).image() == ui_image(
            old(framebuffer).image(),
            paused,
            generation as nat,
            speed as nat,
            window_width as int,
            window_height as int,
        ),
{
    let ui_start_y: u32 = if window_height > UI_HEIGHT { window_height - UI_HEIGHT } else { 0 };
    let top: i64 = ui_start_y as i64;
    framebuffer.set_current_color(Color::black());
    framebuffer.fill_rect(0, top, window_width as u64, (window_height - ui_start_y) as u64);
    framebuffer.set_current_color(Color::darkgray());
    framebuffer.fill_rect(0, top, window_width as u64, 1);
    framebuffer.set_current_color(Color::white());
    let compact_ui = window_width < COMPACT_WIDTH;
    if paused {
        draw_text(framebuffer, "Status: PAUSED ", 10, top + 10, 1);
    } else {
        draw_text(framebuffer, "Status: RUNNING", 10, top + 10, 1);
    }
    let mut gen_text = chars_of("Gen: ");
    let mut digits = decimal_chars(generation);
    gen_text.append(&mut digits);
    let gen_pos_x: i64 = if compact_ui { 150 } else { window_width as i64 / 3 };
    draw_chars(framebuffer, &gen_text, gen_pos_x, top + 10, 1);
    let mut speed_text = chars_of("Speed: ");
    let mut speed_digits = decimal_chars(speed);
    let mut unit = chars_of("ms");
    speed_text.append(&mut speed_digits);
    speed_text.append(&mut unit);
    let speed_pos_x: i64 = if compact_ui { 250 } else { 2 * window_width as i64 / 3 };
    draw_chars(framebuffer, &speed_text, speed_pos_x, top + 10, 1);
    if compact_ui {
        draw_text(framebuffer, "SPACE=Pause | R=Reset | S=Step | UP/DOWN=Speed", 10, top + 25, 1);
    } else {
        draw_text(
            framebuffer,
            "Controls: SPACE=Pause | R=Reset | S=Step | UP/DOWN=Speed",
            10,
            top + 25,
            1,
        );
    }
    if !compact_ui && window_width >= LEGEND_MIN_WIDTH {
        let legend_y: i64 = top + 10;
        let legend_width: u32 = if window_width >= WIDE_LEGEND_WIDTH { 380 } else { 300 };
        let start_x: u32 = window_width - legend_width;
        let spacing: u32 = if window_width >= WIDE_LEGEND_WIDTH { 80 } else { 60 };
        draw_legend_entry(framebuffer, tag_color(CellType::StillLife), "SLife", start_x, legend_y);
        draw_legend_entry(framebuffer, tag_color(CellType::Oscillator), "Osc", start_x + spacing, legend_y);
        draw_legend_entry(framebuffer, tag_color(CellType::Spaceship), "Ship", start_x + 2 * spacing, legend_y);
        draw_legend_entry(framebuffer, tag_color(CellType::Generated), "Gen", start_x + 3 * spacing, legend_y);
    }
}

} // verus!
