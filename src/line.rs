use vstd::prelude::*;
use crate::color::Color;
use crate::framebuffer::{Framebuffer, plot};

verus! {

/// A pixel position.
#[derive(Clone, Copy, Debug, PartialEq, Eq, Structural)]
pub struct Point {
    pub x: i32,
    pub y: i32,
}

pub open spec fn abs(a: int) -> int {
    if a < 0 {
        -a
    } else {
        a
    }
}

/// The positions that Bresenham's walk visits from (x, y) with error term
/// `err` towards (x1, y1), at most `fuel` of them. Each step moves along x
/// when `2 * err > -dy` and along y when `2 * err < dx`; the walk stops at
/// the end point, which it includes.
pub open spec fn walk(
    x: int,
    y: int,
    err: int,
    x1: int,
    y1: int,
    dx: int,
    dy: int,
    sx: int,
    sy: int,
    fuel: nat,
) -> Seq<(int, int)>
    decreases fuel,
{
    if fuel == 0 {
        seq![]
    } else if x == x1 && y == y1 {
        seq![(x, y)]
    } else {
        let e2 = 2 * err;
        let nx = if e2 > -dy {
            x + sx
        } else {
            x
        };
        let err1 = if e2 > -dy {
            err - dy
        } else {
            err
        };
        let ny = if e2 < dx {
            y + sy
        } else {
            y
        };
        let err2 = if e2 < dx {
            err1 + dx
        } else {
            err1
        };
        seq![(x, y)] + walk(nx, ny, err2, x1, y1, dx, dy, sx, sy, (fuel - 1) as nat)
    }
}

/// The pixels of the integer Bresenham line from `start` to `end`, both
/// included, in the order they are drawn.
pub open spec fn line_points(start: Point, end: Point) -> Seq<(int, int)> {
    let dx = abs(end.x - start.x);
    let dy = abs(end.y - start.y);
    let sx = if start.x < end.x {
        1int
    } else {
        -1int
    };
    let sy = if start.y < end.y {
        1int
    } else {
        -1int
    };
    walk(start.x as int, start.y as int, dx - dy, end.x as int, end.y as int, dx, dy, sx, sy, (dx + dy + 1) as nat)
}

proof fn lemma_walk_horizontal(x: int, x1: int, y: int, dx: int, sx: int, sy: int, fuel: nat)
    requires
        x <= x1,
        fuel >= x1 - x + 1,
        x < x1 ==> sx == 1 && dx > 0,
    ensures
        walk(x, y, dx, x1, y, dx, 0, sx, sy, fuel) == Seq::new((x1 - x + 1) as nat, |k: int| (x + k, y)),
    decreases fuel,
{
    if x == x1 {
        assert(walk(x, y, dx, x1, y, dx, 0, sx, sy, fuel) =~= Seq::new((x1 - x + 1) as nat, |k: int| (x + k, y)));
    } else {
        lemma_walk_horizontal(x + 1, x1, y, dx, sx, sy, (fuel - 1) as nat);
        assert(walk(x, y, dx, x1, y, dx, 0, sx, sy, fuel) =~= Seq::new((x1 - x + 1) as nat, |k: int| (x + k, y)));
    }
}

/// A horizontal line drawn left to right is every pixel from its start to
/// its end on that row, in order: from (0, 0) to (5, 0) it is the six
/// pixels (0, 0) to (5, 0).
pub proof fn lemma_horizontal_line(x0: i32, x1: i32, y: i32)
    requires
        x0 <= x1,
    ensures
        line_points(Point { x: x0, y }, Point { x: x1, y }) == Seq::new(
            (x1 - x0 + 1) as nat,
            |k: int| (x0 + k, y as int),
        ),
{
    let sy = -1int;
    let sx = if x0 < x1 { 1int } else { -1int };
    lemma_walk_horizontal(x0 as int, x1 as int, y as int, x1 - x0, sx, sy, (x1 - x0 + 1) as nat);
}

/// `img` with each of `pts`, in order, set to `c`; positions outside the
/// image are ignored.
pub open spec fn plot_all(img: Seq<Seq<Color>>, pts: Seq<(int, int)>, c: Color) -> Seq<Seq<Color>>
    decreases pts.len(),
{
    if pts.len() == 0 {
        img
    } else {
        plot(plot_all(img, pts.drop_last(), c), pts.last().0, pts.last().1, c)
    }
}

/// Draws the Bresenham line from `start` to `end`, both included, in the
/// current color. Pixels off the canvas are skipped by `set_pixel`.
pub fn line(framebuffer: &mut Framebuffer, start: Point, end: Point)
    requires
        old(framebuffer).wf(),
    ensures
        final(framebuffer).wf(),
        final(framebuffer).spec_width() == old(framebuffer).spec_width(),
        final(framebuffer).spec_height() == old(framebuffer).spec_height(),
        final(framebuffer).background() == old(framebuffer).background(),
        final(framebuffer).current() == old(framebuffer).current(),
        final(framebuffer).image() == plot_all(
            old(framebuffer).image(),
            line_points(start, end),
            old(framebuffer).current(),
        ),
        line_points(start, end).len() >= 1,
        line_points(start, end)[0] == (start.x as int, start.y as int),
        line_points(start, end).last() == (end.x as int, end.y as int),
{
    let ghost img0 = framebuffer.image();
    let ghost c = framebuffer.current();
    let mut x0: i64 = start.x as i64;
    let mut y0: i64 = start.y as i64;
    let x1: i64 = end.x as i64;
    let y1: i64 = end.y as i64;
    let dx: i64 = if x1 >= x0 { x1 - x0 } else { x0 - x1 };
    let dy: i64 = if y1 >= y0 { y1 - y0 } else { y0 - y1 };
    let sx: i64 = if x0 < x1 { 1 } else { -1 };
    let sy: i64 = if y0 < y1 { 1 } else { -1 };
    let mut err: i64 = dx - dy;
    let ghost mut i: int = 0;
    let ghost mut j: int = 0;
    let ghost mut fuel: nat = (dx + dy + 1) as nat;
    let ghost mut pts: Seq<(int, int)> = seq![];
    proof {
        let ddx = dx as int;
        let ddy = dy as int;
        assert(ddx * (1 + 0) - ddy * (1 + 0) == ddx - ddy) by (nonlinear_arith);
    }
    loop
        invariant_except_break
            framebuffer.image() == plot_all(img0, pts, c),
            pts.len() > 0 ==> pts[0] == (start.x as int, start.y as int),
            pts + walk(x0 as int, y0 as int, err as int, x1 as int, y1 as int, dx as int, dy as int, sx as int, sy as int, fuel)
                == line_points(start, end),
            pts.len() == 0 ==> x0 == start.x && y0 == start.y,
            x1 == end.x,
            y1 == end.y,
            dx == abs(end.x - start.x),
            dy == abs(end.y - start.y),
            sx == (if start.x < end.x { 1int } else { -1int }),
            sy == (if start.y < end.y { 1int } else { -1int }),
            0 <= i <= dx,
            0 <= j <= dy,
            fuel >= (dx - i) + (dy - j) + 1,
            x0 == (if sx == 1 { start.x + i } else { start.x - i }),
            y0 == (if sy == 1 { start.y + j } else { start.y - j }),
            err == dx * (1 + j) - dy * (1 + i),
            -2 * dy <= err <= 2 * dx,
        invariant
            framebuffer.wf(),
            framebuffer.spec_width() == old(framebuffer).spec_width(),
            framebuffer.spec_height() == old(framebuffer).spec_height(),
            framebuffer.background() == old(framebuffer).background(),
            framebuffer.current() == c,
            c == old(framebuffer).current(),
            img0 == old(framebuffer).image(),
        ensures
            framebuffer.image() == plot_all(img0, line_points(start, end), c),
            line_points(start, end).len() >= 1,
            line_points(start, end)[0] == (start.x as int, start.y as int),
            line_points(start, end).last() == (end.x as int, end.y as int),
        decreases fuel,
    {
        if x0 >= 0 && y0 >= 0 {
            framebuffer.set_pixel(x0 as u32, y0 as u32);
        }
        proof {
            assert(pts.push((x0 as int, y0 as int)).drop_last() == pts);
            pts = pts.push((x0 as int, y0 as int));
        }
        if x0 == x1 && y0 == y1 {
            proof {
                assert(walk(x0 as int, y0 as int, err as int, x1 as int, y1 as int, dx as int, dy as int, sx as int, sy as int, fuel) == seq![(x0 as int, y0 as int)]);
                assert(pts =~= line_points(start, end));
                assert(pts.last() == (x0 as int, y0 as int));
            }
            break;
        }
        let e2: i64 = 2 * err;
        proof {
            let ii = i;
            let jj = j;
            let ddx = dx as int;
            let ddy = dy as int;
            if ii == ddx {
                assert(jj < ddy);
                assert(ddx * (1 + jj - ddy) <= 0) by (nonlinear_arith)
                    requires ddx >= 0, 1 + jj - ddy <= 0;
                assert(ddx * (1 + jj) - ddy * (1 + ii) == ddx * (1 + jj - ddy) - ddy) by (nonlinear_arith)
                    requires ii == ddx;
            }
            if jj == ddy {
                assert(ii < ddx);
                assert(ddy * (ddx - 1 - ii) >= 0) by (nonlinear_arith)
                    requires ddy >= 0, ddx - 1 - ii >= 0;
                assert(ddx * (1 + jj) - ddy * (1 + ii) == ddx + ddy * (ddx - 1 - ii)) by (nonlinear_arith)
                    requires jj == ddy;
            }
            assert(pts.drop_last() + walk(x0 as int, y0 as int, err as int, x1 as int, y1 as int, dx as int, dy as int, sx as int, sy as int, fuel)
                == line_points(start, end));
        }
        let ghost old_pts = pts.drop_last();
        let ghost x_prev = x0 as int;
        let ghost y_prev = y0 as int;
        let ghost err_prev = err as int;
        if e2 > -dy {
            err = err - dy;
            x0 = x0 + sx;
            proof {
                i = i + 1;
            }
        }
        if e2 < dx {
            err = err + dx;
            y0 = y0 + sy;
            proof {
                j = j + 1;
            }
        }
        proof {
            let ddx = dx as int;
            let ddy = dy as int;
            assert(ddx * (1 + j) == ddx * (1 + (j - 1)) + ddx) by (nonlinear_arith);
            assert(ddy * (1 + i) == ddy * (1 + (i - 1)) + ddy) by (nonlinear_arith);
            assert(walk(x_prev, y_prev, err_prev, x1 as int, y1 as int, ddx, ddy, sx as int, sy as int, fuel)
                == seq![(x_prev, y_prev)] + walk(x0 as int, y0 as int, err as int, x1 as int, y1 as int, ddx, ddy, sx as int, sy as int, (fuel - 1) as nat));
            assert(old_pts + (seq![(x_prev, y_prev)] + walk(x0 as int, y0 as int, err as int, x1 as int, y1 as int, ddx, ddy, sx as int, sy as int, (fuel - 1) as nat))
                =~= pts + walk(x0 as int, y0 as int, err as int, x1 as int, y1 as int, ddx, ddy, sx as int, sy as int, (fuel - 1) as nat));
            fuel = (fuel - 1) as nat;
        }
    }
}

} // verus!
