use vstd::prelude::*;
use vstd::arithmetic::div_mod::{
    lemma_div_pos_is_pos, lemma_fundamental_div_mod, lemma_fundamental_div_mod_converse,
    lemma_mod_pos_bound,
};
use crate::color::Color;
use crate::framebuffer::{Framebuffer, filled, is_image, lemma_rect_off_bottom, lemma_rect_off_right, rect_filled};
use crate::life::{CellType, grid_of, is_grid, width_of};

verus! {

/// Margin kept free on each side of the grid, in pixels.
pub const BORDER_SIZE: u32 = 50;

/// Height of the status strip at the bottom of the canvas, in pixels.
pub const UI_HEIGHT: u32 = 40;

/// The fill color of a live cell with tag `t`.
pub open spec fn spec_tag_color(t: CellType) -> Color {
    match t {
        CellType::StillLife => Color::spec_gold(),
        CellType::Oscillator => Color::spec_lime(),
        CellType::Spaceship => Color::spec_red(),
        CellType::Custom => Color::spec_skyblue(),
        CellType::Generated => Color::spec_orange(),
        CellType::Dead => Color::spec_white(),
    }
}

#[verifier::when_used_as_spec(spec_tag_color)]
pub fn tag_color(t: CellType) -> (c: Color)
    ensures
        c == spec_tag_color(t),
{
    match t {
        CellType::StillLife => Color::gold(),
        CellType::Oscillator => Color::lime(),
        CellType::Spaceship => Color::red(),
        CellType::Custom => Color::skyblue(),
        CellType::Generated => Color::orange(),
        CellType::Dead => Color::white(),
    }
}

pub open spec fn sat_sub(a: int, b: int) -> int {
    if a >= b {
        a - b
    } else {
        0
    }
}

/// Height of the canvas above the status strip; a canvas no taller than
/// the strip keeps its whole height.
pub open spec fn available_height(fb_height: int) -> int {
    if fb_height > UI_HEIGHT {
        fb_height - UI_HEIGHT
    } else {
        fb_height
    }
}

/// The side of a cell in pixels: the largest square cell that lets a
/// `w` by `h` grid fit inside the margins, and at least one pixel.
pub open spec fn cell_side(fb_width: int, fb_height: int, w: int, h: int) -> int {
    let horizontal = sat_sub(fb_width, 2 * BORDER_SIZE) / w;
    let vertical = sat_sub(available_height(fb_height), 2 * BORDER_SIZE) / h;
    let m = if horizontal <= vertical {
        horizontal
    } else {
        vertical
    };
    if m >= 1 {
        m
    } else {
        1
    }
}

/// The column of the grid's left edge, centering it horizontally.
pub open spec fn grid_left(fb_width: int, w: int, cs: int) -> int {
    sat_sub(fb_width, w * cs) / 2
}

/// The row of the grid's top edge, centering it above the status strip.
pub open spec fn grid_top(fb_height: int, h: int, cs: int) -> int {
    sat_sub(available_height(fb_height), h * cs) / 2
}

/// Whether cell (col, row) comes before cell (c, r) in row-major order.
pub open spec fn before(col: int, row: int, c: int, r: int) -> bool {
    row < r || (row == r && col < c)
}

/// The color of pixel (px, py) once the live cells before (c, r) have been
/// filled: the cell whose block holds the pixel is found by dividing its
/// offset from the grid's corner by the cell size.
pub open spec fn cell_pixel(
    img: Seq<Seq<Color>>,
    g: Seq<Seq<bool>>,
    t: Seq<Seq<CellType>>,
    left: int,
    top: int,
    cs: int,
    c: int,
    r: int,
    px: int,
    py: int,
) -> Color {
    let col = (px - left) / cs;
    let row = (py - top) / cs;
    if left <= px && top <= py && row < g.len() && col < width_of(g) && before(col, row, c, r)
        && g[row][col] {
        spec_tag_color(t[row][col])
    } else {
        img[py][px]
    }
}

pub open spec fn cells_upto(
    img: Seq<Seq<Color>>,
    g: Seq<Seq<bool>>,
    t: Seq<Seq<CellType>>,
    left: int,
    top: int,
    cs: int,
    c: int,
    r: int,
) -> Seq<Seq<Color>> {
    Seq::new(
        img.len(),
        |py: int| Seq::new(img[py].len(), |px: int| cell_pixel(img, g, t, left, top, cs, c, r, px, py)),
    )
}

/// `img` with the `cs` by `cs` block of every live cell of `g`, whose
/// top-left corner is at (left, top), filled with the color of its tag.
pub open spec fn grid_pixels(
    img: Seq<Seq<Color>>,
    g: Seq<Seq<bool>>,
    t: Seq<Seq<CellType>>,
    left: int,
    top: int,
    cs: int,
) -> Seq<Seq<Color>> {
    cells_upto(img, g, t, left, top, cs, 0, g.len() as int)
}

/// `img` with a one-pixel white frame just outside the `gw` by `gh`
/// rectangle at (left, top).
pub open spec fn framed(img: Seq<Seq<Color>>, left: int, top: int, gw: int, gh: int) -> Seq<
    Seq<Color>,
> {
    let white = Color::spec_white();
    let top_edge = rect_filled(img, left - 1, top - 1, gw + 2, 1, white);
    let bottom_edge = rect_filled(top_edge, left - 1, top + gh, gw + 2, 1, white);
    let left_edge = rect_filled(bottom_edge, left - 1, top - 1, 1, gh + 2, white);
    rect_filled(left_edge, left + gw, top - 1, 1, gh + 2, white)
}

/// The whole picture of the world (g, t) on a `fb_width` by `fb_height`
/// canvas with background `bg`.
pub open spec fn rendered(
    fb_width: int,
    fb_height: int,
    bg: Color,
    g: Seq<Seq<bool>>,
    t: Seq<Seq<CellType>>,
) -> Seq<Seq<Color>> {
    let w = width_of(g);
    let h = g.len() as int;
    let cs = cell_side(fb_width, fb_height, w, h);
    let left = grid_left(fb_width, w, cs);
    let top = grid_top(fb_height, h, cs);
    framed(
        grid_pixels(filled(fb_width as nat, fb_height as nat, bg), g, t, left, top, cs),
        left,
        top,
        w * cs,
        h * cs,
    )
}

proof fn lemma_div_block(v: int, cs: int, k: int)
    requires
        0 <= v,
        0 < cs,
    ensures
        (v / cs == k) <==> (k * cs <= v < k * cs + cs),
{
    lemma_fundamental_div_mod(v, cs);
    if k * cs <= v < k * cs + cs {
        lemma_fundamental_div_mod_converse(v, cs, k, v - k * cs);
    }
    if v / cs == k {
        assert(cs * (v / cs) == k * cs) by (nonlinear_arith)
            requires v / cs == k;
    }
}

proof fn lemma_block_step(
    img: Seq<Seq<Color>>,
    fw: nat,
    fh: nat,
    g: Seq<Seq<bool>>,
    t: Seq<Seq<CellType>>,
    left: int,
    top: int,
    cs: int,
    c: int,
    r: int,
)
    requires
        is_image(img, fw, fh),
        is_grid(g, width_of(g), g.len() as int),
        is_grid(t, width_of(g), g.len() as int),
        0 <= r < g.len(),
        0 <= c < width_of(g),
        0 < cs,
        0 <= left,
        0 <= top,
    ensures
        cells_upto(img, g, t, left, top, cs, c + 1, r) == if g[r][c] {
            rect_filled(
                cells_upto(img, g, t, left, top, cs, c, r),
                left + c * cs,
                top + r * cs,
                cs,
                cs,
                spec_tag_color(t[r][c]),
            )
        } else {
            cells_upto(img, g, t, left, top, cs, c, r)
        },
{
    let a = cells_upto(img, g, t, left, top, cs, c, r);
    let b = cells_upto(img, g, t, left, top, cs, c + 1, r);
    let col = spec_tag_color(t[r][c]);
    let target = if g[r][c] {
        rect_filled(a, left + c * cs, top + r * cs, cs, cs, col)
    } else {
        a
    };
    assert forall|py: int, px: int| 0 <= py < fh && 0 <= px < fw implies #[trigger] b[py][px]
        == target[py][px] by {
        if left <= px && top <= py {
            lemma_div_block(px - left, cs, c);
            lemma_div_block(py - top, cs, r);
        }
    }
    assert(b =~~= target);
}

proof fn lemma_row_step(
    img: Seq<Seq<Color>>,
    g: Seq<Seq<bool>>,
    t: Seq<Seq<CellType>>,
    left: int,
    top: int,
    cs: int,
    r: int,
)
    requires
        0 < cs,
    ensures
        cells_upto(img, g, t, left, top, cs, width_of(g), r) == cells_upto(
            img,
            g,
            t,
            left,
            top,
            cs,
            0,
            r + 1,
        ),
{
    assert forall|py: int, px: int| 0 <= py < img.len() && 0 <= px < img[py].len() implies #[trigger] cell_pixel(img, g, t, left, top, cs, width_of(g), r, px, py)
        == cell_pixel(img, g, t, left, top, cs, 0, r + 1, px, py) by {
        if left <= px && top <= py {
            lemma_div_pos_is_pos(px - left, cs);
            lemma_div_pos_is_pos(py - top, cs);
        }
    }
    assert(cells_upto(img, g, t, left, top, cs, width_of(g), r) =~~= cells_upto(
        img,
        g,
        t,
        left,
        top,
        cs,
        0,
        r + 1,
    ));
}

/// Clears the canvas and draws the world on it: each live cell as a square
/// block colored by its tag, the grid centered in the area above the status
/// strip with cells as large as the margins allow, then a one-pixel white
/// frame around the grid. Leaves white as the current color.
pub fn render_grid(data: &(Vec<Vec<bool>>, Vec<Vec<CellType>>), framebuffer: &mut Framebuffer)
    requires
        old(framebuffer).wf(),
        is_grid(grid_of(&data.0), width_of(grid_of(&data.0)), data.0@.len() as int),
        is_grid(grid_of(&data.1), width_of(grid_of(&data.0)), data.0@.len() as int),
        1 <= width_of(grid_of(&data.0)) <= u32::MAX,
        1 <= data.0@.len() <= u32::MAX,
    ensures
        final(framebuffer).wf(),
        final(framebuffer).spec_width() == old(framebuffer).spec_width(),
        final(framebuffer).spec_height() == old(framebuffer).spec_height(),
        final(framebuffer).background() == old(framebuffer).background(),
        final(framebuffer).current() == Color::spec_white(),
        final(framebuffer).image() == rendered(
            old(framebuffer).spec_width() as int,
            old(framebuffer).spec_height() as int,
            old(framebuffer).background(),
            grid_of(&data.0),
            grid_of(&data.1),
        ),
{
    let grid = &data.0;
    let cell_types = &data.1;
    let ghost g = grid_of(grid);
    let ghost t = grid_of(cell_types);
    framebuffer.clear();
    let ghost img0 = framebuffer.image();
    let ghost fw = framebuffer.spec_width();
    let ghost fh = framebuffer.spec_height();
    let (fbw, fbh) = framebuffer.size();
    let fb_width: u64 = fbw as u64;
    let fb_height: u64 = fbh as u64;
    let gh: u64 = grid.len() as u64;
    let gw: u64 = grid[0].len() as u64;
    let avail_height: u64 = if fb_height > UI_HEIGHT as u64 {
        fb_height - UI_HEIGHT as u64
    } else {
        fb_height
    };
    let margins: u64 = 2 * BORDER_SIZE as u64;
    let horizontal_cell_size: u64 = if fb_width >= margins { fb_width - margins } else { 0 } / gw;
    let vertical_cell_size: u64 = if avail_height >= margins {
        avail_height - margins
    } else {
        0
    } / gh;
    let smaller: u64 = if horizontal_cell_size <= vertical_cell_size {
        horizontal_cell_size
    } else {
        vertical_cell_size
    };
    let cell_size: u64 = if smaller >= 1 { smaller } else { 1 };
    proof {
        assert(cell_size <= 0xffff_ffff);
        assert(gw * cell_size <= 0xffff_ffff * 0xffff_ffff) by (nonlinear_arith)
            requires gw <= 0xffff_ffff, cell_size <= 0xffff_ffff;
        assert(gh * cell_size <= 0xffff_ffff * 0xffff_ffff) by (nonlinear_arith)
            requires gh <= 0xffff_ffff, cell_size <= 0xffff_ffff;
    }
    proof {
        let hx: int = if fb_width >= margins { fb_width - margins } else { 0 };
        let vx: int = if avail_height >= margins { avail_height - margins } else { 0 };
        if smaller >= 1 {
            lemma_fundamental_div_mod(hx, gw as int);
            lemma_fundamental_div_mod(vx, gh as int);
            lemma_mod_pos_bound(hx, gw as int);
            lemma_mod_pos_bound(vx, gh as int);
            let cz = cell_size as int;
            let a = gw as int;
            let b = gh as int;
            assert(a * cz <= hx) by (nonlinear_arith)
                requires cz <= hx / a, a > 0, hx == a * (hx / a) + hx % a, hx % a >= 0;
            assert(b * cz <= vx) by (nonlinear_arith)
                requires cz <= vx / b, b > 0, vx == b * (vx / b) + vx % b, vx % b >= 0;
        }
    }
    let grid_w: u64 = gw * cell_size;
    let grid_h: u64 = gh * cell_size;
    let left: u64 = if fb_width >= grid_w { fb_width - grid_w } else { 0 } / 2;
    let top: u64 = if avail_height >= grid_h { avail_height - grid_h } else { 0 } / 2;
    let ghost cs = cell_size as int;
    assert(cs == cell_side(fw as int, fh as int, gw as int, gh as int));
    assert(left == grid_left(fw as int, gw as int, cs));
    assert(top == grid_top(fh as int, gh as int, cs));
    proof {
        assert(grid_w <= 0xffff_ffff);
        assert(grid_h <= 0xffff_ffff);
        assert forall|py: int, px: int| 0 <= py < fh && 0 <= px < fw implies #[trigger] cell_pixel(img0, g, t, left as int, top as int, cs, 0, 0, px, py)
            == img0[py][px] by {
            if left <= px && top <= py {
                lemma_div_pos_is_pos(px - left, cs);
                lemma_div_pos_is_pos(py - top, cs);
            }
        }
        assert(img0 =~~= cells_upto(img0, g, t, left as int, top as int, cs, 0, 0));
    }
    let mut r: usize = 0;
    while r < grid.len()
        invariant
            framebuffer.wf(),
            framebuffer.spec_width() == fw,
            framebuffer.spec_height() == fh,
            fw == old(framebuffer).spec_width(),
            fh == old(framebuffer).spec_height(),
            framebuffer.background() == old(framebuffer).background(),
            img0 == filled(fw, fh, old(framebuffer).background()),
            is_image(img0, fw, fh),
            g == grid_of(grid),
            t == grid_of(cell_types),
            is_grid(g, gw as int, gh as int),
            is_grid(t, gw as int, gh as int),
            gw == width_of(g),
            fb_width == fw,
            fb_height == fh,
            1 <= cell_size <= 0xffff_ffff,
            cs == cell_size,
            gw <= 0xffff_ffff,
            gh <= 0xffff_ffff,
            grid_w <= 0xffff_ffff,
            grid_h <= 0xffff_ffff,
            left <= 0xffff_ffff,
            top <= 0xffff_ffff,
            r <= gh,
            framebuffer.image() == cells_upto(img0, g, t, left as int, top as int, cs, 0, r as int),
        decreases gh - r,
    {
        let mut c: usize = 0;
        while c < grid[r].len()
            invariant
                framebuffer.wf(),
                framebuffer.spec_width() == fw,
                framebuffer.spec_height() == fh,
                fw == old(framebuffer).spec_width(),
                fh == old(framebuffer).spec_height(),
                framebuffer.background() == old(framebuffer).background(),
                img0 == filled(fw, fh, old(framebuffer).background()),
                is_image(img0, fw, fh),
                g == grid_of(grid),
                t == grid_of(cell_types),
                is_grid(g, gw as int, gh as int),
                is_grid(t, gw as int, gh as int),
                gw == width_of(g),
                fb_width == fw,
                fb_height == fh,
                1 <= cell_size <= 0xffff_ffff,
                cs == cell_size,
                gw <= 0xffff_ffff,
                gh <= 0xffff_ffff,
                left <= 0xffff_ffff,
                top <= 0xffff_ffff,
                r < gh,
                c <= gw,
                grid@[r as int]@ == g[r as int],
                framebuffer.image() == cells_upto(img0, g, t, left as int, top as int, cs, c as int, r as int),
            decreases gw - c,
        {
            proof {
                lemma_block_step(img0, fw, fh, g, t, left as int, top as int, cs, c as int, r as int);
                assert(t[r as int] == cell_types@[r as int]@);
            }
            if grid[r][c] {
                proof {
                    assert(c * cell_size <= 0xffff_ffff * 0xffff_ffff) by (nonlinear_arith)
                        requires c <= 0xffff_ffff, cell_size <= 0xffff_ffff;
                    assert(r * cell_size <= 0xffff_ffff * 0xffff_ffff) by (nonlinear_arith)
                        requires r <= 0xffff_ffff, cell_size <= 0xffff_ffff;
                }
                let px: u128 = left as u128 + c as u128 * cell_size as u128;
                let py: u128 = top as u128 + r as u128 * cell_size as u128;
                if px < fb_width as u128 && py < fb_height as u128 {
                    framebuffer.set_current_color(tag_color(cell_types[r][c]));
                    framebuffer.fill_rect(px as i64, py as i64, cell_size, cell_size);
                } else if px >= fb_width as u128 {
                    proof {
                        lemma_rect_off_right(framebuffer.image(), fw, fh, px as int, py as int, cs, cs, spec_tag_color(t[r as int][c as int]));
                    }
                } else {
                    proof {
                        lemma_rect_off_bottom(framebuffer.image(), fw, fh, px as int, py as int, cs, cs, spec_tag_color(t[r as int][c as int]));
                    }
                }
            }
            c = c + 1;
        }
        proof {
            lemma_row_step(img0, g, t, left as int, top as int, cs, r as int);
        }
        r = r + 1;
    }
    framebuffer.set_current_color(Color::white());
    let l: i64 = left as i64 - 1;
    let tp: i64 = top as i64 - 1;
    framebuffer.fill_rect(l, tp, grid_w + 2, 1);
    framebuffer.fill_rect(l, top as i64 + grid_h as i64, grid_w + 2, 1);
    framebuffer.fill_rect(l, tp, 1, grid_h + 2);
    framebuffer.fill_rect(left as i64 + grid_w as i64, tp, 1, grid_h + 2);
}

} // verus!
