use vstd::prelude::*;
use crate::life::{CellType, grid_of, is_grid, lemma_wrap, next_grid, next_tags, set_cell, width_of};

verus! {

/// Whether a pattern whose bounding box is w by h, anchored with its
/// top-left corner at (x, y), lies wholly inside `g`.
pub open spec fn fits<T>(g: Seq<Seq<T>>, x: int, y: int, w: int, h: int) -> bool {
    x + w <= width_of(g) && y + h <= g.len()
}

/// Whether (dx, dy) is one of the offsets of `shape`.
pub open spec fn in_shape(shape: Seq<(usize, usize)>, dx: int, dy: int) -> bool {
    exists|k: int| 0 <= k < shape.len() && shape[k].0 == dx && shape[k].1 == dy
}

/// Every offset of `shape` lies inside a w by h bounding box.
pub open spec fn shape_within(shape: Seq<(usize, usize)>, w: int, h: int) -> bool {
    forall|k: int| 0 <= k < shape.len() ==> #[trigger] shape[k].0 < w && shape[k].1 < h
}

/// `g` with the cells of `shape` anchored at (x, y) set alive, when its
/// bounding box fits; otherwise `g` unchanged. A pattern is never stamped
/// in part.
pub open spec fn stamped(
    g: Seq<Seq<bool>>,
    shape: Seq<(usize, usize)>,
    w: int,
    h: int,
    x: int,
    y: int,
) -> Seq<Seq<bool>> {
    if fits(g, x, y, w, h) {
        Seq::new(
            g.len(),
            |r: int| Seq::new(g[r].len(), |c: int| g[r][c] || in_shape(shape, c - x, r - y)),
        )
    } else {
        g
    }
}

/// `t` with every cell of the w by h box at (x, y) that is alive in `g`
/// tagged `cat`; cells outside the box, or dead, keep their tag.
pub open spec fn marked(
    g: Seq<Seq<bool>>,
    t: Seq<Seq<CellType>>,
    x: int,
    y: int,
    w: int,
    h: int,
    cat: CellType,
) -> Seq<Seq<CellType>> {
    Seq::new(
        t.len(),
        |r: int|
            Seq::new(
                t[r].len(),
                |c: int|
                    if x <= c < x + w && y <= r < y + h && g[r][c] {
                        cat
                    } else {
                        t[r][c]
                    },
            ),
    )
}

/// A world of `w` by `h` dead cells, all tagged `Dead`.
pub open spec fn empty_world(w: int, h: int) -> (Seq<Seq<bool>>, Seq<Seq<CellType>>) {
    (
        Seq::new(h as nat, |r: int| Seq::new(w as nat, |c: int| false)),
        Seq::new(h as nat, |r: int| Seq::new(w as nat, |c: int| CellType::Dead)),
    )
}

/// The world after stamping `shape` at (x, y) and tagging its bounding box
/// with `cat`.
pub open spec fn placed(
    world: (Seq<Seq<bool>>, Seq<Seq<CellType>>),
    shape: Seq<(usize, usize)>,
    w: int,
    h: int,
    x: int,
    y: int,
    cat: CellType,
) -> (Seq<Seq<bool>>, Seq<Seq<CellType>>) {
    let g = stamped(world.0, shape, w, h, x, y);
    (g, marked(g, world.1, x, y, w, h, cat))
}

proof fn lemma_in_shape_take(shape: Seq<(usize, usize)>, k: int, dx: int, dy: int)
    requires
        0 <= k < shape.len(),
    ensures
        in_shape(shape.take(k + 1), dx, dy) == (in_shape(shape.take(k), dx, dy) || (shape[k].0
            == dx && shape[k].1 == dy)),
{
    if in_shape(shape.take(k + 1), dx, dy) {
        let j = choose|j: int|
            0 <= j < k + 1 && (#[trigger] shape.take(k + 1)[j]).0 == dx && shape.take(k + 1)[j].1 == dy;
        if j < k {
            assert(shape.take(k)[j] == shape[j]);
        }
    }
    if in_shape(shape.take(k), dx, dy) {
        let j = choose|j: int| 0 <= j < k && (#[trigger] shape.take(k)[j]).0 == dx && shape.take(k)[j].1 == dy;
        assert(shape.take(k + 1)[j] == shape[j]);
    }
    if shape[k].0 == dx && shape[k].1 == dy {
        assert(shape.take(k + 1)[k] == shape[k]);
    }
}

/// A pattern whose bounding box does not fit at its anchor leaves the grid
/// exactly as it was.
pub proof fn lemma_stamp_out_of_bounds_is_noop(
    g: Seq<Seq<bool>>,
    shape: Seq<(usize, usize)>,
    w: int,
    h: int,
    x: int,
    y: int,
)
    requires
        !fits(g, x, y, w, h),
    ensures
        stamped(g, shape, w, h, x, y) == g,
{
}

/// Sets alive the cells of `shape` anchored at (x, y), provided the w by h
/// bounding box fits in the grid; otherwise does nothing.
pub fn stamp(
    grid: &mut Vec<Vec<bool>>,
    shape: &Vec<(usize, usize)>,
    w: usize,
    h: usize,
    x: usize,
    y: usize,
)
    requires
        is_grid(grid_of(old(grid)), width_of(grid_of(old(grid))), old(grid)@.len() as int),
        shape_within(shape@, w as int, h as int),
    ensures
        is_grid(grid_of(final(grid)), width_of(grid_of(old(grid))), old(grid)@.len() as int),
        width_of(grid_of(final(grid))) == width_of(grid_of(old(grid))),
        grid_of(final(grid)) == stamped(
            grid_of(old(grid)),
            shape@,
            w as int,
            h as int,
            x as int,
            y as int,
        ),
{
    let ghost g0 = grid_of(grid);
    let gh = grid.len();
    let gw: usize = if gh == 0 { 0 } else { grid[0].len() };
    if x <= gw && w <= gw - x && y <= gh && h <= gh - y {
        let mut k: usize = 0;
        while k < shape.len()
            invariant
                is_grid(g0, gw as int, gh as int),
                gw == width_of(g0),
                fits(g0, x as int, y as int, w as int, h as int),
                shape_within(shape@, w as int, h as int),
                k <= shape@.len(),
                is_grid(grid_of(grid), gw as int, gh as int),
                forall|r: int, c: int|
                    0 <= r < gh && 0 <= c < gw ==> #[trigger] grid_of(grid)[r][c] == (g0[r][c]
                        || in_shape(shape@.take(k as int), c - x, r - y)),
            decreases shape@.len() - k,
        {
            let (dx, dy) = shape[k];
            proof {
                assert(shape_within(shape@, w as int, h as int));
                assert(shape@[k as int].0 < w && shape@[k as int].1 < h);
            }
            let ghost before = grid_of(grid);
            proof {
                assert(grid_of(grid)[y + dy] == grid@[y + dy]@);
            }
            set_cell(grid, x + dx, y + dy, true);
            proof {
                assert forall|r: int, c: int| 0 <= r < gh && 0 <= c < gw implies #[trigger] grid_of(
                    grid,
                )[r][c] == (g0[r][c] || in_shape(shape@.take(k + 1), c - x, r - y)) by {
                    lemma_in_shape_take(shape@, k as int, c - x, r - y);
                    if r != y + dy {
                        assert(grid_of(grid)[r] == before[r]);
                    }
                }
            }
            k = k + 1;
        }
        proof {
            assert(shape@.take(shape@.len() as int) == shape@);
            assert(grid_of(grid) =~~= stamped(g0, shape@, w as int, h as int, x as int, y as int));
        }
    }
}

/// Tags with `cell_type` every alive cell of the w by h box at (x, y);
/// cells outside the box or the grid, and dead cells, keep their tag.
pub fn mark_region(
    grid: &Vec<Vec<bool>>,
    cell_types: &mut Vec<Vec<CellType>>,
    x: usize,
    y: usize,
    width: usize,
    height: usize,
    cell_type: CellType,
)
    requires
        is_grid(grid_of(grid), width_of(grid_of(grid)), grid@.len() as int),
        is_grid(grid_of(old(cell_types)), width_of(grid_of(grid)), grid@.len() as int),
    ensures
        is_grid(grid_of(final(cell_types)), width_of(grid_of(grid)), grid@.len() as int),
        grid_of(final(cell_types)) == marked(
            grid_of(grid),
            grid_of(old(cell_types)),
            x as int,
            y as int,
            width as int,
            height as int,
            cell_type,
        ),
{
    let ghost g = grid_of(grid);
    let ghost t0 = grid_of(cell_types);
    let gh = grid.len();
    let gw: usize = if gh == 0 { 0 } else { grid[0].len() };
    let y_end: usize = if y >= gh {
        y
    } else if height <= gh - y {
        y + height
    } else {
        gh
    };
    let x_end: usize = if x >= gw {
        x
    } else if width <= gw - x {
        x + width
    } else {
        gw
    };
    let mut r: usize = y;
    while r < y_end
        invariant
            g == grid_of(grid),
            is_grid(g, gw as int, gh as int),
            is_grid(t0, gw as int, gh as int),
            is_grid(grid_of(cell_types), gw as int, gh as int),
            y <= r,
            r <= y_end || r == y,
            y_end <= gh || y_end == y,
            y_end == (if y >= gh { y as int } else if y + height <= gh { y + height } else { gh as int }),
            x_end <= gw || x_end == x,
            x_end == (if x >= gw { x as int } else if x + width <= gw { x + width } else { gw as int }),
            y < gh || y_end == y,
            x < gw || x_end == x,
            forall|rr: int, cc: int|
                0 <= rr < gh && 0 <= cc < gw ==> #[trigger] grid_of(cell_types)[rr][cc] == if x
                    <= cc < x + width && y <= rr < y + height && rr < r && g[rr][cc] {
                    cell_type
                } else {
                    t0[rr][cc]
                },
        decreases y_end - r,
    {
        let mut c: usize = x;
        while c < x_end
            invariant
                g == grid_of(grid),
                is_grid(g, gw as int, gh as int),
                is_grid(t0, gw as int, gh as int),
                is_grid(grid_of(cell_types), gw as int, gh as int),
                y <= r < y_end,
                y_end <= gh,
                y_end == (if y + height <= gh { y + height } else { gh as int }),
                x <= c,
                c <= x_end || c == x,
                x_end <= gw || x_end == x,
                x_end == (if x >= gw { x as int } else if x + width <= gw { x + width } else { gw as int }),
                x < gw || x_end == x,
                forall|rr: int, cc: int|
                    0 <= rr < gh && 0 <= cc < gw ==> #[trigger] grid_of(cell_types)[rr][cc] == if x
                        <= cc < x + width && y <= rr < y + height && (rr < r || (rr == r && cc
                        < c)) && g[rr][cc] {
                        cell_type
                    } else {
                        t0[rr][cc]
                    },
            decreases x_end - c,
        {
            proof {
                assert(g[r as int] == grid@[r as int]@);
            }
            if grid[r][c] {
                let ghost before = grid_of(cell_types);
                proof {
                    assert(before[r as int] == cell_types@[r as int]@);
                }
                set_cell(cell_types, c, r, cell_type);
                proof {
                    assert forall|rr: int, cc: int| 0 <= rr < gh && 0 <= cc < gw && rr != r implies #[trigger] grid_of(
                        cell_types,
                    )[rr][cc] == before[rr][cc] by {
                        assert(grid_of(cell_types)[rr] == before[rr]);
                    }
                }
            }
            c = c + 1;
        }
        proof {
            assert forall|rr: int, cc: int| 0 <= rr < gh && 0 <= cc < gw implies #[trigger] grid_of(
                cell_types,
            )[rr][cc] == if x <= cc < x + width && y <= rr < y + height && rr < r + 1
                && g[rr][cc] {
                cell_type
            } else {
                t0[rr][cc]
            } by {
                if rr == r && x <= cc < x + width {
                    assert(cc < c);
                }
            }
        }
        r = r + 1;
    }
    proof {
        assert(grid_of(cell_types) =~~= marked(
            g,
            t0,
            x as int,
            y as int,
            width as int,
            height as int,
            cell_type,
        ));
    }
}

/// A block, a 2 by 2 still life. Offsets are (column, row) from the top-left corner of its
/// 2 by 2 bounding box.
pub open spec fn block_shape() -> Seq<(usize, usize)> {
    seq![(0usize, 0usize), (1usize, 0usize), (0usize, 1usize), (1usize, 1usize)]
}

fn block_cells() -> (v: Vec<(usize, usize)>)
    ensures
        v@ == block_shape(),
        shape_within(v@, 2, 2),
{
    let v: Vec<(usize, usize)> = vec![(0, 0), (1, 0), (0, 1), (1, 1)];
    proof {
        assert(v@ =~= block_shape());
    }
    v
}

/// Stamps a block with its bounding box's top-left corner at (x, y);
/// does nothing when the box does not fit in the grid.
pub fn create_block(grid: &mut Vec<Vec<bool>>, x: usize, y: usize)
    requires
        is_grid(grid_of(old(grid)), width_of(grid_of(old(grid))), old(grid)@.len() as int),
    ensures
        is_grid(grid_of(final(grid)), width_of(grid_of(old(grid))), old(grid)@.len() as int),
        width_of(grid_of(final(grid))) == width_of(grid_of(old(grid))),
        grid_of(final(grid)) == stamped(grid_of(old(grid)), block_shape(), 2, 2, x as int, y as int),
{
    let cells = block_cells();
    stamp(grid, &cells, 2, 2, x, y);
}

/// A beehive, a still life. Offsets are (column, row) from the top-left corner of its
/// 4 by 3 bounding box.
pub open spec fn beehive_shape() -> Seq<(usize, usize)> {
    seq![(1usize, 0usize), (2usize, 0usize), (0usize, 1usize), (3usize, 1usize), (1usize, 2usize), (2usize, 2usize)]
}

fn beehive_cells() -> (v: Vec<(usize, usize)>)
    ensures
        v@ == beehive_shape(),
        shape_within(v@, 4, 3),
{
    let v: Vec<(usize, usize)> = vec![(1, 0), (2, 0), (0, 1), (3, 1), (1, 2), (2, 2)];
    proof {
        assert(v@ =~= beehive_shape());
    }
    v
}

/// Stamps a beehive with its bounding box's top-left corner at (x, y);
/// does nothing when the box does not fit in the grid.
pub fn create_beehive(grid: &mut Vec<Vec<bool>>, x: usize, y: usize)
    requires
        is_grid(grid_of(old(grid)), width_of(grid_of(old(grid))), old(grid)@.len() as int),
    ensures
        is_grid(grid_of(final(grid)), width_of(grid_of(old(grid))), old(grid)@.len() as int),
        width_of(grid_of(final(grid))) == width_of(grid_of(old(grid))),
        grid_of(final(grid)) == stamped(grid_of(old(grid)), beehive_shape(), 4, 3, x as int, y as int),
{
    let cells = beehive_cells();
    stamp(grid, &cells, 4, 3, x, y);
}

/// A loaf, a still life. Offsets are (column, row) from the top-left corner of its
/// 4 by 4 bounding box.
pub open spec fn loaf_shape() -> Seq<(usize, usize)> {
    seq![(1usize, 0usize), (2usize, 0usize), (0usize, 1usize), (3usize, 1usize), (1usize, 2usize), (3usize, 2usize), (2usize, 3usize)]
}

fn loaf_cells() -> (v: Vec<(usize, usize)>)
    ensures
        v@ == loaf_shape(),
        shape_within(v@, 4, 4),
{
    let v: Vec<(usize, usize)> = vec![(1, 0), (2, 0), (0, 1), (3, 1), (1, 2), (3, 2), (2, 3)];
    proof {
        assert(v@ =~= loaf_shape());
    }
    v
}

/// Stamps a loaf with its bounding box's top-left corner at (x, y);
/// does nothing when the box does not fit in the grid.
pub fn create_loaf(grid: &mut Vec<Vec<bool>>, x: usize, y: usize)
    requires
        is_grid(grid_of(old(grid)), width_of(grid_of(old(grid))), old(grid)@.len() as int),
    ensures
        is_grid(grid_of(final(grid)), width_of(grid_of(old(grid))), old(grid)@.len() as int),
        width_of(grid_of(final(grid))) == width_of(grid_of(old(grid))),
        grid_of(final(grid)) == stamped(grid_of(old(grid)), loaf_shape(), 4, 4, x as int, y as int),
{
    let cells = loaf_cells();
    stamp(grid, &cells, 4, 4, x, y);
}

/// A boat, a still life. Offsets are (column, row) from the top-left corner of its
/// 3 by 3 bounding box.
pub open spec fn boat_shape() -> Seq<(usize, usize)> {
    seq![(0usize, 0usize), (1usize, 0usize), (0usize, 1usize), (2usize, 1usize), (1usize, 2usize)]
}

fn boat_cells() -> (v: Vec<(usize, usize)>)
    ensures
        v@ == boat_shape(),
        shape_within(v@, 3, 3),
{
    let v: Vec<(usize, usize)> = vec![(0, 0), (1, 0), (0, 1), (2, 1), (1, 2)];
    proof {
        assert(v@ =~= boat_shape());
    }
    v
}

/// Stamps a boat with its bounding box's top-left corner at (x, y);
/// does nothing when the box does not fit in the grid.
pub fn create_boat(grid: &mut Vec<Vec<bool>>, x: usize, y: usize)
    requires
        is_grid(grid_of(old(grid)), width_of(grid_of(old(grid))), old(grid)@.len() as int),
    ensures
        is_grid(grid_of(final(grid)), width_of(grid_of(old(grid))), old(grid)@.len() as int),
        width_of(grid_of(final(grid))) == width_of(grid_of(old(grid))),
        grid_of(final(grid)) == stamped(grid_of(old(grid)), boat_shape(), 3, 3, x as int, y as int),
{
    let cells = boat_cells();
    stamp(grid, &cells, 3, 3, x, y);
}

/// A tub, a still life. Offsets are (column, row) from the top-left corner of its
/// 3 by 3 bounding box.
pub open spec fn tub_shape() -> Seq<(usize, usize)> {
    seq![(1usize, 0usize), (0usize, 1usize), (2usize, 1usize), (1usize, 2usize)]
}

fn tub_cells() -> (v: Vec<(usize, usize)>)
    ensures
        v@ == tub_shape(),
        shape_within(v@, 3, 3),
{
    let v: Vec<(usize, usize)> = vec![(1, 0), (0, 1), (2, 1), (1, 2)];
    proof {
        assert(v@ =~= tub_shape());
    }
    v
}

/// Stamps a tub with its bounding box's top-left corner at (x, y);
/// does nothing when the box does not fit in the grid.
pub fn create_tub(grid: &mut Vec<Vec<bool>>, x: usize, y: usize)
    requires
        is_grid(grid_of(old(grid)), width_of(grid_of(old(grid))), old(grid)@.len() as int),
    ensures
        is_grid(grid_of(final(grid)), width_of(grid_of(old(grid))), old(grid)@.len() as int),
        width_of(grid_of(final(grid))) == width_of(grid_of(old(grid))),
        grid_of(final(grid)) == stamped(grid_of(old(grid)), tub_shape(), 3, 3, x as int, y as int),
{
    let cells = tub_cells();
    stamp(grid, &cells, 3, 3, x, y);
}

/// A horizontal blinker, a period-2 oscillator of three cells in a row. Offsets are (column, row) from the top-left corner of its
/// 3 by 1 bounding box.
pub open spec fn blinker_shape() -> Seq<(usize, usize)> {
    seq![(0usize, 0usize), (1usize, 0usize), (2usize, 0usize)]
}

fn blinker_cells() -> (v: Vec<(usize, usize)>)
    ensures
        v@ == blinker_shape(),
        shape_within(v@, 3, 1),
{
    let v: Vec<(usize, usize)> = vec![(0, 0), (1, 0), (2, 0)];
    proof {
        assert(v@ =~= blinker_shape());
    }
    v
}

/// Stamps a horizontal blinker with its bounding box's top-left corner at (x, y);
/// does nothing when the box does not fit in the grid.
pub fn create_blinker(grid: &mut Vec<Vec<bool>>, x: usize, y: usize)
    requires
        is_grid(grid_of(old(grid)), width_of(grid_of(old(grid))), old(grid)@.len() as int),
    ensures
        is_grid(grid_of(final(grid)), width_of(grid_of(old(grid))), old(grid)@.len() as int),
        width_of(grid_of(final(grid))) == width_of(grid_of(old(grid))),
        grid_of(final(grid)) == stamped(grid_of(old(grid)), blinker_shape(), 3, 1, x as int, y as int),
{
    let cells = blinker_cells();
    stamp(grid, &cells, 3, 1, x, y);
}

/// A toad, a period-2 oscillator. Offsets are (column, row) from the top-left corner of its
/// 4 by 2 bounding box.
pub open spec fn toad_shape() -> Seq<(usize, usize)> {
    seq![(1usize, 0usize), (2usize, 0usize), (3usize, 0usize), (0usize, 1usize), (1usize, 1usize), (2usize, 1usize)]
}

fn toad_cells() -> (v: Vec<(usize, usize)>)
    ensures
        v@ == toad_shape(),
        shape_within(v@, 4, 2),
{
    let v: Vec<(usize, usize)> = vec![(1, 0), (2, 0), (3, 0), (0, 1), (1, 1), (2, 1)];
    proof {
        assert(v@ =~= toad_shape());
    }
    v
}

/// Stamps a toad with its bounding box's top-left corner at (x, y);
/// does nothing when the box does not fit in the grid.
pub fn create_toad(grid: &mut Vec<Vec<bool>>, x: usize, y: usize)
    requires
        is_grid(grid_of(old(grid)), width_of(grid_of(old(grid))), old(grid)@.len() as int),
    ensures
        is_grid(grid_of(final(grid)), width_of(grid_of(old(grid))), old(grid)@.len() as int),
        width_of(grid_of(final(grid))) == width_of(grid_of(old(grid))),
        grid_of(final(grid)) == stamped(grid_of(old(grid)), toad_shape(), 4, 2, x as int, y as int),
{
    let cells = toad_cells();
    stamp(grid, &cells, 4, 2, x, y);
}

/// A beacon, a period-2 oscillator made of two diagonal blocks. Offsets are (column, row) from the top-left corner of its
/// 4 by 4 bounding box.
pub open spec fn beacon_shape() -> Seq<(usize, usize)> {
    seq![(0usize, 0usize), (1usize, 0usize), (0usize, 1usize), (1usize, 1usize), (2usize, 2usize), (3usize, 2usize), (2usize, 3usize), (3usize, 3usize)]
}

fn beacon_cells() -> (v: Vec<(usize, usize)>)
    ensures
        v@ == beacon_shape(),
        shape_within(v@, 4, 4),
{
    let v: Vec<(usize, usize)> = vec![(0, 0), (1, 0), (0, 1), (1, 1), (2, 2), (3, 2), (2, 3), (3, 3)];
    proof {
        assert(v@ =~= beacon_shape());
    }
    v
}

/// Stamps a beacon with its bounding box's top-left corner at (x, y);
/// does nothing when the box does not fit in the grid.
pub fn create_beacon(grid: &mut Vec<Vec<bool>>, x: usize, y: usize)
    requires
        is_grid(grid_of(old(grid)), width_of(grid_of(old(grid))), old(grid)@.len() as int),
    ensures
        is_grid(grid_of(final(grid)), width_of(grid_of(old(grid))), old(grid)@.len() as int),
        width_of(grid_of(final(grid))) == width_of(grid_of(old(grid))),
        grid_of(final(grid)) == stamped(grid_of(old(grid)), beacon_shape(), 4, 4, x as int, y as int),
{
    let cells = beacon_cells();
    stamp(grid, &cells, 4, 4, x, y);
}

/// A glider, the smallest spaceship. Offsets are (column, row) from the top-left corner of its
/// 3 by 3 bounding box.
pub open spec fn glider_shape() -> Seq<(usize, usize)> {
    seq![(1usize, 0usize), (2usize, 1usize), (0usize, 2usize), (1usize, 2usize), (2usize, 2usize)]
}

fn glider_cells() -> (v: Vec<(usize, usize)>)
    ensures
        v@ == glider_shape(),
        shape_within(v@, 3, 3),
{
    let v: Vec<(usize, usize)> = vec![(1, 0), (2, 1), (0, 2), (1, 2), (2, 2)];
    proof {
        assert(v@ =~= glider_shape());
    }
    v
}

/// Stamps a glider with its bounding box's top-left corner at (x, y);
/// does nothing when the box does not fit in the grid.
pub fn create_glider(grid: &mut Vec<Vec<bool>>, x: usize, y: usize)
    requires
        is_grid(grid_of(old(grid)), width_of(grid_of(old(grid))), old(grid)@.len() as int),
    ensures
        is_grid(grid_of(final(grid)), width_of(grid_of(old(grid))), old(grid)@.len() as int),
        width_of(grid_of(final(grid))) == width_of(grid_of(old(grid))),
        grid_of(final(grid)) == stamped(grid_of(old(grid)), glider_shape(), 3, 3, x as int, y as int),
{
    let cells = glider_cells();
    stamp(grid, &cells, 3, 3, x, y);
}

/// A lightweight spaceship. Offsets are (column, row) from the top-left corner of its
/// 5 by 4 bounding box.
pub open spec fn lwss_shape() -> Seq<(usize, usize)> {
    seq![(1usize, 0usize), (4usize, 0usize), (0usize, 1usize), (0usize, 2usize), (4usize, 2usize), (0usize, 3usize), (1usize, 3usize), (2usize, 3usize), (3usize, 3usize)]
}

fn lwss_cells() -> (v: Vec<(usize, usize)>)
    ensures
        v@ == lwss_shape(),
        shape_within(v@, 5, 4),
{
    let v: Vec<(usize, usize)> = vec![(1, 0), (4, 0), (0, 1), (0, 2), (4, 2), (0, 3), (1, 3), (2, 3), (3, 3)];
    proof {
        assert(v@ =~= lwss_shape());
    }
    v
}

/// Stamps a lightweight spaceship with its bounding box's top-left corner at (x, y);
/// does nothing when the box does not fit in the grid.
pub fn create_lwss(grid: &mut Vec<Vec<bool>>, x: usize, y: usize)
    requires
        is_grid(grid_of(old(grid)), width_of(grid_of(old(grid))), old(grid)@.len() as int),
    ensures
        is_grid(grid_of(final(grid)), width_of(grid_of(old(grid))), old(grid)@.len() as int),
        width_of(grid_of(final(grid))) == width_of(grid_of(old(grid))),
        grid_of(final(grid)) == stamped(grid_of(old(grid)), lwss_shape(), 5, 4, x as int, y as int),
{
    let cells = lwss_cells();
    stamp(grid, &cells, 5, 4, x, y);
}

/// A pulsar, a period-3 oscillator. Offsets are (column, row) from the top-left corner of its
/// 13 by 13 bounding box.
pub open spec fn pulsar_shape() -> Seq<(usize, usize)> {
    seq![(2usize, 0usize), (0usize, 2usize), (2usize, 5usize), (5usize, 2usize), (2usize, 7usize), (7usize, 2usize), (2usize, 12usize), (12usize, 2usize), (3usize, 0usize), (0usize, 3usize), (3usize, 5usize), (5usize, 3usize), (3usize, 7usize), (7usize, 3usize), (3usize, 12usize), (12usize, 3usize), (4usize, 0usize), (0usize, 4usize), (4usize, 5usize), (5usize, 4usize), (4usize, 7usize), (7usize, 4usize), (4usize, 12usize), (12usize, 4usize), (8usize, 0usize), (0usize, 8usize), (8usize, 5usize), (5usize, 8usize), (8usize, 7usize), (7usize, 8usize), (8usize, 12usize), (12usize, 8usize), (9usize, 0usize), (0usize, 9usize), (9usize, 5usize), (5usize, 9usize), (9usize, 7usize), (7usize, 9usize), (9usize, 12usize), (12usize, 9usize), (10usize, 0usize), (0usize, 10usize), (10usize, 5usize), (5usize, 10usize), (10usize, 7usize), (7usize, 10usize), (10usize, 12usize), (12usize, 10usize)]
}

fn pulsar_cells() -> (v: Vec<(usize, usize)>)
    ensures
        v@ == pulsar_shape(),
        shape_within(v@, 13, 13),
{
    let v: Vec<(usize, usize)> = vec![(2, 0), (0, 2), (2, 5), (5, 2), (2, 7), (7, 2), (2, 12), (12, 2), (3, 0), (0, 3), (3, 5), (5, 3), (3, 7), (7, 3), (3, 12), (12, 3), (4, 0), (0, 4), (4, 5), (5, 4), (4, 7), (7, 4), (4, 12), (12, 4), (8, 0), (0, 8), (8, 5), (5, 8), (8, 7), (7, 8), (8, 12), (12, 8), (9, 0), (0, 9), (9, 5), (5, 9), (9, 7), (7, 9), (9, 12), (12, 9), (10, 0), (0, 10), (10, 5), (5, 10), (10, 7), (7, 10), (10, 12), (12, 10)];
    proof {
        assert(v@ =~= pulsar_shape());
    }
    v
}

/// Stamps a pulsar with its bounding box's top-left corner at (x, y);
/// does nothing when the box does not fit in the grid.
pub fn create_pulsar(grid: &mut Vec<Vec<bool>>, x: usize, y: usize)
    requires
        is_grid(grid_of(old(grid)), width_of(grid_of(old(grid))), old(grid)@.len() as int),
    ensures
        is_grid(grid_of(final(grid)), width_of(grid_of(old(grid))), old(grid)@.len() as int),
        width_of(grid_of(final(grid))) == width_of(grid_of(old(grid))),
        grid_of(final(grid)) == stamped(grid_of(old(grid)), pulsar_shape(), 13, 13, x as int, y as int),
{
    let cells = pulsar_cells();
    stamp(grid, &cells, 13, 13, x, y);
}

/// A Gosper glider gun, which emits a glider every 30 generations. Offsets are (column, row) from the top-left corner of its
/// 36 by 9 bounding box.
pub open spec fn gosper_glider_gun_shape() -> Seq<(usize, usize)> {
    seq![(0usize, 4usize), (1usize, 4usize), (0usize, 5usize), (1usize, 5usize), (12usize, 2usize), (13usize, 2usize), (11usize, 3usize), (15usize, 3usize), (10usize, 4usize), (16usize, 4usize), (10usize, 5usize), (14usize, 5usize), (16usize, 5usize), (17usize, 5usize), (10usize, 6usize), (16usize, 6usize), (11usize, 7usize), (15usize, 7usize), (12usize, 8usize), (13usize, 8usize), (24usize, 0usize), (22usize, 1usize), (24usize, 1usize), (20usize, 2usize), (21usize, 2usize), (20usize, 3usize), (21usize, 3usize), (20usize, 4usize), (21usize, 4usize), (22usize, 5usize), (24usize, 5usize), (24usize, 6usize), (34usize, 2usize), (35usize, 2usize), (34usize, 3usize), (35usize, 3usize)]
}

fn gosper_glider_gun_cells() -> (v: Vec<(usize, usize)>)
    ensures
        v@ == gosper_glider_gun_shape(),
        shape_within(v@, 36, 9),
{
    let v: Vec<(usize, usize)> = vec![(0, 4), (1, 4), (0, 5), (1, 5), (12, 2), (13, 2), (11, 3), (15, 3), (10, 4), (16, 4), (10, 5), (14, 5), (16, 5), (17, 5), (10, 6), (16, 6), (11, 7), (15, 7), (12, 8), (13, 8), (24, 0), (22, 1), (24, 1), (20, 2), (21, 2), (20, 3), (21, 3), (20, 4), (21, 4), (22, 5), (24, 5), (24, 6), (34, 2), (35, 2), (34, 3), (35, 3)];
    proof {
        assert(v@ =~= gosper_glider_gun_shape());
    }
    v
}

/// Stamps a Gosper glider gun with its bounding box's top-left corner at (x, y);
/// does nothing when the box does not fit in the grid.
pub fn create_gosper_glider_gun(grid: &mut Vec<Vec<bool>>, x: usize, y: usize)
    requires
        is_grid(grid_of(old(grid)), width_of(grid_of(old(grid))), old(grid)@.len() as int),
    ensures
        is_grid(grid_of(final(grid)), width_of(grid_of(old(grid))), old(grid)@.len() as int),
        width_of(grid_of(final(grid))) == width_of(grid_of(old(grid))),
        grid_of(final(grid)) == stamped(grid_of(old(grid)), gosper_glider_gun_shape(), 36, 9, x as int, y as int),
{
    let cells = gosper_glider_gun_cells();
    stamp(grid, &cells, 36, 9, x, y);
}

/// A pentadecathlon, a period-15 oscillator. Offsets are (column, row) from the top-left corner of its
/// 3 by 10 bounding box.
pub open spec fn pentadecathlon_shape() -> Seq<(usize, usize)> {
    seq![(1usize, 1usize), (1usize, 2usize), (1usize, 3usize), (1usize, 4usize), (1usize, 5usize), (1usize, 6usize), (1usize, 7usize), (1usize, 8usize), (0usize, 0usize), (2usize, 0usize), (0usize, 9usize), (2usize, 9usize)]
}

fn pentadecathlon_cells() -> (v: Vec<(usize, usize)>)
    ensures
        v@ == pentadecathlon_shape(),
        shape_within(v@, 3, 10),
{
    let v: Vec<(usize, usize)> = vec![(1, 1), (1, 2), (1, 3), (1, 4), (1, 5), (1, 6), (1, 7), (1, 8), (0, 0), (2, 0), (0, 9), (2, 9)];
    proof {
        assert(v@ =~= pentadecathlon_shape());
    }
    v
}

/// Stamps a pentadecathlon with its bounding box's top-left corner at (x, y);
/// does nothing when the box does not fit in the grid.
pub fn create_pentadecathlon(grid: &mut Vec<Vec<bool>>, x: usize, y: usize)
    requires
        is_grid(grid_of(old(grid)), width_of(grid_of(old(grid))), old(grid)@.len() as int),
    ensures
        is_grid(grid_of(final(grid)), width_of(grid_of(old(grid))), old(grid)@.len() as int),
        width_of(grid_of(final(grid))) == width_of(grid_of(old(grid))),
        grid_of(final(grid)) == stamped(grid_of(old(grid)), pentadecathlon_shape(), 3, 10, x as int, y as int),
{
    let cells = pentadecathlon_cells();
    stamp(grid, &cells, 3, 10, x, y);
}

/// An R-pentomino, a methuselah. Offsets are (column, row) from the top-left corner of its
/// 3 by 3 bounding box.
pub open spec fn r_pentomino_shape() -> Seq<(usize, usize)> {
    seq![(1usize, 0usize), (2usize, 0usize), (0usize, 1usize), (1usize, 1usize), (1usize, 2usize)]
}

fn r_pentomino_cells() -> (v: Vec<(usize, usize)>)
    ensures
        v@ == r_pentomino_shape(),
        shape_within(v@, 3, 3),
{
    let v: Vec<(usize, usize)> = vec![(1, 0), (2, 0), (0, 1), (1, 1), (1, 2)];
    proof {
        assert(v@ =~= r_pentomino_shape());
    }
    v
}

/// Stamps an R-pentomino with its bounding box's top-left corner at (x, y);
/// does nothing when the box does not fit in the grid.
pub fn create_r_pentomino(grid: &mut Vec<Vec<bool>>, x: usize, y: usize)
    requires
        is_grid(grid_of(old(grid)), width_of(grid_of(old(grid))), old(grid)@.len() as int),
    ensures
        is_grid(grid_of(final(grid)), width_of(grid_of(old(grid))), old(grid)@.len() as int),
        width_of(grid_of(final(grid))) == width_of(grid_of(old(grid))),
        grid_of(final(grid)) == stamped(grid_of(old(grid)), r_pentomino_shape(), 3, 3, x as int, y as int),
{
    let cells = r_pentomino_cells();
    stamp(grid, &cells, 3, 3, x, y);
}

/// An acorn, a methuselah. Offsets are (column, row) from the top-left corner of its
/// 7 by 2 bounding box.
pub open spec fn acorn_shape() -> Seq<(usize, usize)> {
    seq![(1usize, 0usize), (3usize, 0usize), (0usize, 1usize), (1usize, 1usize), (4usize, 1usize), (5usize, 1usize), (6usize, 1usize)]
}

fn acorn_cells() -> (v: Vec<(usize, usize)>)
    ensures
        v@ == acorn_shape(),
        shape_within(v@, 7, 2),
{
    let v: Vec<(usize, usize)> = vec![(1, 0), (3, 0), (0, 1), (1, 1), (4, 1), (5, 1), (6, 1)];
    proof {
        assert(v@ =~= acorn_shape());
    }
    v
}

/// Stamps an acorn with its bounding box's top-left corner at (x, y);
/// does nothing when the box does not fit in the grid.
pub fn create_acorn(grid: &mut Vec<Vec<bool>>, x: usize, y: usize)
    requires
        is_grid(grid_of(old(grid)), width_of(grid_of(old(grid))), old(grid)@.len() as int),
    ensures
        is_grid(grid_of(final(grid)), width_of(grid_of(old(grid))), old(grid)@.len() as int),
        width_of(grid_of(final(grid))) == width_of(grid_of(old(grid))),
        grid_of(final(grid)) == stamped(grid_of(old(grid)), acorn_shape(), 7, 2, x as int, y as int),
{
    let cells = acorn_cells();
    stamp(grid, &cells, 7, 2, x, y);
}

/// A diehard, which vanishes after 130 generations. Offsets are (column, row) from the top-left corner of its
/// 8 by 3 bounding box.
pub open spec fn diehard_shape() -> Seq<(usize, usize)> {
    seq![(0usize, 0usize), (1usize, 0usize), (1usize, 1usize), (5usize, 1usize), (6usize, 1usize), (7usize, 1usize), (6usize, 2usize)]
}

fn diehard_cells() -> (v: Vec<(usize, usize)>)
    ensures
        v@ == diehard_shape(),
        shape_within(v@, 8, 3),
{
    let v: Vec<(usize, usize)> = vec![(0, 0), (1, 0), (1, 1), (5, 1), (6, 1), (7, 1), (6, 2)];
    proof {
        assert(v@ =~= diehard_shape());
    }
    v
}

/// Stamps a diehard with its bounding box's top-left corner at (x, y);
/// does nothing when the box does not fit in the grid.
pub fn create_diehard(grid: &mut Vec<Vec<bool>>, x: usize, y: usize)
    requires
        is_grid(grid_of(old(grid)), width_of(grid_of(old(grid))), old(grid)@.len() as int),
    ensures
        is_grid(grid_of(final(grid)), width_of(grid_of(old(grid))), old(grid)@.len() as int),
        width_of(grid_of(final(grid))) == width_of(grid_of(old(grid))),
        grid_of(final(grid)) == stamped(grid_of(old(grid)), diehard_shape(), 8, 3, x as int, y as int),
{
    let cells = diehard_cells();
    stamp(grid, &cells, 8, 3, x, y);
}

/// Three live cells in a row at columns x to x + 2 of row y.
pub open spec fn row_of_three(w: int, h: int, x: int, y: int) -> Seq<Seq<bool>> {
    Seq::new(h as nat, |r: int| Seq::new(w as nat, |c: int| r == y && x <= c <= x + 2))
}

/// Three live cells in a column at column x + 1, rows y - 1 to y + 1 taken
/// around the torus.
pub open spec fn column_of_three(w: int, h: int, x: int, y: int) -> Seq<Seq<bool>> {
    let above = if y == 0 {
        h - 1
    } else {
        y - 1
    };
    let below = if y == h - 1 {
        0
    } else {
        y + 1
    };
    Seq::new(
        h as nat,
        |r: int| Seq::new(w as nat, |c: int| c == x + 1 && (r == y || r == above || r == below)),
    )
}

proof fn lemma_blinker_stamp(w: int, h: int, x: int, y: int)
    requires
        w >= 1,
        h >= 1,
        0 <= x,
        x + 3 <= w,
        0 <= y < h,
    ensures
        stamped(empty_world(w, h).0, blinker_shape(), 3, 1, x, y) == row_of_three(w, h, x, y),
{
    let g = empty_world(w, h).0;
    let s = blinker_shape();
    assert(width_of(g) == w);
    assert forall|r: int, c: int| 0 <= r < h && 0 <= c < w implies #[trigger] stamped(
        g,
        s,
        3,
        1,
        x,
        y,
    )[r][c] == row_of_three(w, h, x, y)[r][c] by {
        if r == y && x <= c <= x + 2 {
            assert(s[c - x] == (((c - x) as usize), 0usize));
        }
    }
    assert(stamped(g, s, 3, 1, x, y) =~~= row_of_three(w, h, x, y));
}

proof fn lemma_row_to_column(w: int, h: int, x: int, y: int)
    requires
        w >= 4,
        h >= 4,
        0 <= x,
        x + 3 <= w,
        0 <= y < h,
    ensures
        next_grid(row_of_three(w, h, x, y)) == column_of_three(w, h, x, y),
{
    let g = row_of_three(w, h, x, y);
    assert(width_of(g) == w);
    assert forall|r: int, c: int| 0 <= r < h && 0 <= c < w implies #[trigger] next_grid(g)[r][c]
        == column_of_three(w, h, x, y)[r][c] by {
        lemma_wrap(c - 1, w);
        lemma_wrap(c, w);
        lemma_wrap(c + 1, w);
        lemma_wrap(r - 1, h);
        lemma_wrap(r, h);
        lemma_wrap(r + 1, h);
    }
    assert(next_grid(g) =~~= column_of_three(w, h, x, y));
}

proof fn lemma_column_to_row(w: int, h: int, x: int, y: int)
    requires
        w >= 4,
        h >= 4,
        0 <= x,
        x + 3 <= w,
        0 <= y < h,
    ensures
        next_grid(column_of_three(w, h, x, y)) == row_of_three(w, h, x, y),
{
    let g = column_of_three(w, h, x, y);
    assert(width_of(g) == w);
    assert forall|r: int, c: int| 0 <= r < h && 0 <= c < w implies #[trigger] next_grid(g)[r][c]
        == row_of_three(w, h, x, y)[r][c] by {
        lemma_wrap(c - 1, w);
        lemma_wrap(c, w);
        lemma_wrap(c + 1, w);
        lemma_wrap(r - 1, h);
        lemma_wrap(r, h);
        lemma_wrap(r + 1, h);
    }
    assert(next_grid(g) =~~= row_of_three(w, h, x, y));
}

proof fn lemma_row_still_on_three_by_two(y: int)
    requires
        0 <= y < 2,
    ensures
        next_grid(row_of_three(3, 2, 0, y)) == row_of_three(3, 2, 0, y),
{
    let g = row_of_three(3, 2, 0, y);
    assert(width_of(g) == 3);
    assert forall|r: int, c: int| 0 <= r < 2 && 0 <= c < 3 implies #[trigger] next_grid(g)[r][c]
        == g[r][c] by {
        lemma_wrap(c - 1, 3);
        lemma_wrap(c, 3);
        lemma_wrap(c + 1, 3);
        lemma_wrap(r - 1, 2);
        lemma_wrap(r, 2);
        lemma_wrap(r + 1, 2);
    }
    assert(next_grid(g) =~~= g);
}

/// A horizontal blinker stamped alone on a torus returns to its own alive
/// cells after two generations. On a torus of at least 4 by 4 cells it is
/// vertical in between; on the 3 by 2 torus the row is still. On smaller
/// tori, such as 3 by 3 or 4 by 3, it does not come back.
///
/// Tagged `Oscillator`, only its middle cell keeps that tag through both
/// generations on a torus of at least 4 by 4: its two end cells die and are
/// born again, so they come back tagged `Generated`.
pub proof fn lemma_blinker_period_two(w: int, h: int, x: int, y: int)
    requires
        (w >= 4 && h >= 4) || (w == 3 && h == 2),
        0 <= x,
        x + 3 <= w,
        0 <= y < h,
    ensures
        ({
            let g0 = stamped(empty_world(w, h).0, blinker_shape(), 3, 1, x, y);
            &&& next_grid(next_grid(g0)) == g0
            &&& (w >= 4 && h >= 4) ==> next_grid(g0) == column_of_three(w, h, x, y)
        }),
        ({
            let g0 = stamped(empty_world(w, h).0, blinker_shape(), 3, 1, x, y);
            let t0 = marked(g0, empty_world(w, h).1, x, y, 3, 1, CellType::Oscillator);
            let t2 = next_tags(next_grid(g0), next_tags(g0, t0));
            (w >= 4 && h >= 4) ==> {
                &&& t2[y][x + 1] == CellType::Oscillator
                &&& t2[y][x] == CellType::Generated
                &&& t2[y][x + 2] == CellType::Generated
            }
        }),
{
    lemma_blinker_stamp(w, h, x, y);
    if w >= 4 && h >= 4 {
        lemma_row_to_column(w, h, x, y);
        lemma_column_to_row(w, h, x, y);
        let g0 = stamped(empty_world(w, h).0, blinker_shape(), 3, 1, x, y);
        let g1 = next_grid(g0);
        let t0 = marked(g0, empty_world(w, h).1, x, y, 3, 1, CellType::Oscillator);
        let t1 = next_tags(g0, t0);
        assert(width_of(g0) == w);
        assert(width_of(g1) == w);
        assert(g0[y][x + 1] && g1[y][x + 1]);
        assert(next_grid(g1)[y][x + 1] && next_grid(g1)[y][x] && next_grid(g1)[y][x + 2]);
        assert(!g1[y][x] && !g1[y][x + 2]);
        assert(t0[y][x + 1] == CellType::Oscillator);
        assert(t1[y][x + 1] == CellType::Oscillator);
    } else {
        lemma_row_still_on_three_by_two(y);
    }
}

/// Columns of the world that `initialize_grid` lays out.
pub const GRID_WIDTH: usize = 100;

/// Rows of the world that `initialize_grid` lays out.
pub const GRID_HEIGHT: usize = 100;

/// How many patterns the starting world holds.
pub const LAYOUT_LEN: usize = 17;

/// One pattern of the starting world: its cells, its w by h bounding box
/// with top-left corner (x, y), and the family its cells are tagged with.
pub struct Placement {
    pub shape: Seq<(usize, usize)>,
    pub w: int,
    pub h: int,
    pub x: int,
    pub y: int,
    pub family: CellType,
}

/// The i-th pattern of the starting world: still lifes in the top-left
/// quadrant, oscillators in the top-right, spaceships in the bottom-left and
/// the long-lived custom patterns in the bottom-right, no two bounding boxes
/// overlapping.
pub open spec fn layout(i: int) -> Placement {
    if i == 0 {
        Placement { shape: block_shape(), w: 2, h: 2, x: 10, y: 10, family: CellType::StillLife }
    } else if i == 1 {
        Placement { shape: beehive_shape(), w: 4, h: 3, x: 20, y: 15, family: CellType::StillLife }
    } else if i == 2 {
        Placement { shape: loaf_shape(), w: 4, h: 4, x: 30, y: 10, family: CellType::StillLife }
    } else if i == 3 {
        Placement { shape: boat_shape(), w: 3, h: 3, x: 40, y: 10, family: CellType::StillLife }
    } else if i == 4 {
        Placement { shape: tub_shape(), w: 3, h: 3, x: 10, y: 20, family: CellType::StillLife }
    } else if i == 5 {
        Placement { shape: blinker_shape(), w: 3, h: 1, x: 60, y: 10, family: CellType::Oscillator }
    } else if i == 6 {
        Placement { shape: toad_shape(), w: 4, h: 2, x: 70, y: 15, family: CellType::Oscillator }
    } else if i == 7 {
        Placement { shape: beacon_shape(), w: 4, h: 4, x: 70, y: 25, family: CellType::Oscillator }
    } else if i == 8 {
        Placement { shape: pulsar_shape(), w: 13, h: 13, x: 55, y: 40, family: CellType::Oscillator }
    } else if i == 9 {
        Placement { shape: pentadecathlon_shape(), w: 3, h: 10, x: 85, y: 10, family: CellType::Oscillator }
    } else if i == 10 {
        Placement { shape: glider_shape(), w: 3, h: 3, x: 10, y: 70, family: CellType::Spaceship }
    } else if i == 11 {
        Placement { shape: glider_shape(), w: 3, h: 3, x: 20, y: 80, family: CellType::Spaceship }
    } else if i == 12 {
        Placement { shape: lwss_shape(), w: 5, h: 4, x: 35, y: 70, family: CellType::Spaceship }
    } else if i == 13 {
        Placement { shape: gosper_glider_gun_shape(), w: 36, h: 9, x: 55, y: 80, family: CellType::Custom }
    } else if i == 14 {
        Placement { shape: r_pentomino_shape(), w: 3, h: 3, x: 75, y: 60, family: CellType::Custom }
    } else if i == 15 {
        Placement { shape: acorn_shape(), w: 7, h: 2, x: 80, y: 65, family: CellType::Custom }
    } else {
        Placement { shape: diehard_shape(), w: 8, h: 3, x: 60, y: 60, family: CellType::Custom }
    }
}

/// Whether (c, r) lies in the bounding box of `p`.
pub open spec fn in_box(p: Placement, c: int, r: int) -> bool {
    p.x <= c < p.x + p.w && p.y <= r < p.y + p.h
}

/// The world after stamping and tagging the first `n` patterns of the
/// layout, in order, on an empty grid.
pub open spec fn layout_upto(n: nat) -> (Seq<Seq<bool>>, Seq<Seq<CellType>>)
    decreases n,
{
    if n == 0 {
        empty_world(GRID_WIDTH as int, GRID_HEIGHT as int)
    } else {
        let p = layout(n - 1);
        placed(layout_upto((n - 1) as nat), p.shape, p.w, p.h, p.x, p.y, p.family)
    }
}

/// The starting world: every pattern of the layout stamped and tagged.
pub open spec fn initial_world() -> (Seq<Seq<bool>>, Seq<Seq<CellType>>) {
    layout_upto(LAYOUT_LEN as nat)
}

/// A world of `width` by `height` dead cells, all tagged `Dead`.
pub fn new_world(width: usize, height: usize) -> (r: (Vec<Vec<bool>>, Vec<Vec<CellType>>))
    ensures
        (grid_of(&r.0), grid_of(&r.1)) == empty_world(width as int, height as int),
{
    let mut grid: Vec<Vec<bool>> = Vec::new();
    let mut cell_types: Vec<Vec<CellType>> = Vec::new();
    let mut y: usize = 0;
    while y < height
        invariant
            y <= height,
            grid@.len() == y,
            cell_types@.len() == y,
            forall|r: int| 0 <= r < y ==> #[trigger] grid@[r]@ == Seq::new(width as nat, |c: int| false),
            forall|r: int| 0 <= r < y ==> #[trigger] cell_types@[r]@ == Seq::new(width as nat, |c: int| CellType::Dead),
        decreases height - y,
    {
        let mut row: Vec<bool> = Vec::new();
        let mut tag_row: Vec<CellType> = Vec::new();
        let mut x: usize = 0;
        while x < width
            invariant
                x <= width,
                row@.len() == x,
                tag_row@.len() == x,
                forall|c: int| 0 <= c < x ==> #[trigger] row@[c] == false,
                forall|c: int| 0 <= c < x ==> #[trigger] tag_row@[c] == CellType::Dead,
            decreases width - x,
        {
            row.push(false);
            tag_row.push(CellType::Dead);
            x = x + 1;
        }
        proof {
            assert(row@ =~= Seq::new(width as nat, |c: int| false));
            assert(tag_row@ =~= Seq::new(width as nat, |c: int| CellType::Dead));
        }
        grid.push(row);
        cell_types.push(tag_row);
        y = y + 1;
    }
    proof {
        assert(grid_of(&grid) =~= empty_world(width as int, height as int).0);
        assert(grid_of(&cell_types) =~= empty_world(width as int, height as int).1);
    }
    (grid, cell_types)
}


proof fn lemma_layout_entry(i: int)
    requires
        0 <= i < LAYOUT_LEN,
    ensures
        0 <= layout(i).x,
        0 <= layout(i).y,
        layout(i).x + layout(i).w <= GRID_WIDTH,
        layout(i).y + layout(i).h <= GRID_HEIGHT,
        shape_within(layout(i).shape, layout(i).w, layout(i).h),
{
}

proof fn lemma_layout_disjoint(i: int, j: int, c: int, r: int)
    requires
        0 <= i < LAYOUT_LEN,
        0 <= j < LAYOUT_LEN,
        i != j,
        in_box(layout(i), c, r),
    ensures
        !in_box(layout(j), c, r),
{
}

proof fn lemma_in_shape_in_box(p: Placement, c: int, r: int)
    requires
        shape_within(p.shape, p.w, p.h),
        in_shape(p.shape, c - p.x, r - p.y),
    ensures
        in_box(p, c, r),
{
    let k = choose|k: int|
        0 <= k < p.shape.len() && (#[trigger] p.shape[k]).0 == c - p.x && p.shape[k].1 == r - p.y;
    assert(p.shape[k].0 < p.w && p.shape[k].1 < p.h);
}

/// What the first `n` patterns leave: inside the box of pattern i < n a cell
/// is alive exactly where the pattern has a cell, and is then tagged with
/// its family; a cell outside all these boxes is dead and tagged `Dead`.
pub open spec fn families_hold(world: (Seq<Seq<bool>>, Seq<Seq<CellType>>), n: int) -> bool {
    &&& is_grid(world.0, GRID_WIDTH as int, GRID_HEIGHT as int)
    &&& is_grid(world.1, GRID_WIDTH as int, GRID_HEIGHT as int)
    &&& forall|i: int, r: int, c: int|
        0 <= i < n && 0 <= r < GRID_HEIGHT && 0 <= c < GRID_WIDTH && #[trigger] in_box(
            layout(i),
            c,
            r,
        ) ==> world.0[r][c] == in_shape(layout(i).shape, c - layout(i).x, r - layout(i).y)
            && world.1[r][c] == (if world.0[r][c] {
            layout(i).family
        } else {
            CellType::Dead
        })
    &&& forall|r: int, c: int|
        0 <= r < GRID_HEIGHT && 0 <= c < GRID_WIDTH && (forall|i: int|
            0 <= i < n ==> !#[trigger] in_box(layout(i), c, r)) ==> !#[trigger] world.0[r][c]
            && world.1[r][c] == CellType::Dead
}

proof fn lemma_layout_upto(n: int)
    requires
        0 <= n <= LAYOUT_LEN,
    ensures
        families_hold(layout_upto(n as nat), n),
    decreases n,
{
    if n > 0 {
        lemma_layout_upto(n - 1);
        let prev = layout_upto((n - 1) as nat);
        let cur = layout_upto(n as nat);
        let p = layout(n - 1);
        lemma_layout_entry(n - 1);
        assert(width_of(prev.0) == GRID_WIDTH);
        assert(fits(prev.0, p.x, p.y, p.w, p.h));
        assert forall|r: int, c: int| 0 <= r < GRID_HEIGHT && 0 <= c < GRID_WIDTH implies cur.0[r][c]
            == (prev.0[r][c] || in_shape(p.shape, c - p.x, r - p.y)) && cur.1[r][c] == (if in_box(
            p,
            c,
            r,
        ) && cur.0[r][c] {
            p.family
        } else {
            prev.1[r][c]
        }) by {}
        assert forall|i: int, r: int, c: int|
            0 <= i < n && 0 <= r < GRID_HEIGHT && 0 <= c < GRID_WIDTH && #[trigger] in_box(
                layout(i),
                c,
                r,
            ) implies cur.0[r][c] == in_shape(layout(i).shape, c - layout(i).x, r - layout(i).y)
            && cur.1[r][c] == (if cur.0[r][c] {
            layout(i).family
        } else {
            CellType::Dead
        }) by {
            if i == n - 1 {
                assert forall|j: int| 0 <= j < n - 1 implies !#[trigger] in_box(layout(j), c, r) by {
                    lemma_layout_disjoint(i, j, c, r);
                }
            } else {
                lemma_layout_disjoint(i, n - 1, c, r);
                if in_shape(p.shape, c - p.x, r - p.y) {
                    lemma_in_shape_in_box(p, c, r);
                }
            }
        }
        assert forall|r: int, c: int|
            0 <= r < GRID_HEIGHT && 0 <= c < GRID_WIDTH && (forall|i: int|
                0 <= i < n ==> !#[trigger] in_box(layout(i), c, r)) implies !#[trigger] cur.0[r][c]
            && cur.1[r][c] == CellType::Dead by {
            assert(!in_box(p, c, r));
            if in_shape(p.shape, c - p.x, r - p.y) {
                lemma_in_shape_in_box(p, c, r);
            }
            assert forall|i: int| 0 <= i < n - 1 implies !#[trigger] in_box(layout(i), c, r) by {
                assert(!in_box(layout(i), c, r));
            }
        }
        assert(is_grid(cur.0, GRID_WIDTH as int, GRID_HEIGHT as int));
        assert(is_grid(cur.1, GRID_WIDTH as int, GRID_HEIGHT as int));
    } else {
        let w0 = layout_upto(0);
        assert(w0 == empty_world(GRID_WIDTH as int, GRID_HEIGHT as int));
        assert(is_grid(w0.0, GRID_WIDTH as int, GRID_HEIGHT as int));
        assert(is_grid(w0.1, GRID_WIDTH as int, GRID_HEIGHT as int));
        assert forall|r: int, c: int|
            0 <= r < GRID_HEIGHT && 0 <= c < GRID_WIDTH && (forall|i: int|
                0 <= i < 0 ==> !#[trigger] in_box(layout(i), c, r)) implies !#[trigger] w0.0[r][c]
            && w0.1[r][c] == CellType::Dead by {}
    }
}

/// Each live cell of the starting world carries the family of the one
/// pattern that stamped it: inside the bounding box of pattern i a cell is
/// alive exactly where that pattern has a cell, and is then tagged with the
/// pattern's family; every cell outside all the boxes is dead and tagged
/// `Dead`.
pub proof fn lemma_initial_world_families()
    ensures
        families_hold(initial_world(), LAYOUT_LEN as int),
{
    lemma_layout_upto(LAYOUT_LEN as int);
}

/// Lays out the starting world. The result depends on nothing but fixed
/// constants, so every call returns the same world.
pub fn initialize_grid() -> (r: (Vec<Vec<bool>>, Vec<Vec<CellType>>))
    ensures
        (grid_of(&r.0), grid_of(&r.1)) == initial_world(),
{
    let (mut grid, mut cell_types) = new_world(GRID_WIDTH, GRID_HEIGHT);
    proof {
        assert(width_of(grid_of(&grid)) == GRID_WIDTH);
        assert((grid_of(&grid), grid_of(&cell_types)) == layout_upto(0));
    }
    create_block(&mut grid, 10, 10);
    mark_region(&grid, &mut cell_types, 10, 10, 2, 2, CellType::StillLife);
    proof {
        assert((grid_of(&grid), grid_of(&cell_types)) == layout_upto(1));
    }
    create_beehive(&mut grid, 20, 15);
    mark_region(&grid, &mut cell_types, 20, 15, 4, 3, CellType::StillLife);
    proof {
        assert((grid_of(&grid), grid_of(&cell_types)) == layout_upto(2));
    }
    create_loaf(&mut grid, 30, 10);
    mark_region(&grid, &mut cell_types, 30, 10, 4, 4, CellType::StillLife);
    proof {
        assert((grid_of(&grid), grid_of(&cell_types)) == layout_upto(3));
    }
    create_boat(&mut grid, 40, 10);
    mark_region(&grid, &mut cell_types, 40, 10, 3, 3, CellType::StillLife);
    proof {
        assert((grid_of(&grid), grid_of(&cell_types)) == layout_upto(4));
    }
    create_tub(&mut grid, 10, 20);
    mark_region(&grid, &mut cell_types, 10, 20, 3, 3, CellType::StillLife);
    proof {
        assert((grid_of(&grid), grid_of(&cell_types)) == layout_upto(5));
    }
    create_blinker(&mut grid, 60, 10);
    mark_region(&grid, &mut cell_types, 60, 10, 3, 1, CellType::Oscillator);
    proof {
        assert((grid_of(&grid), grid_of(&cell_types)) == layout_upto(6));
    }
    create_toad(&mut grid, 70, 15);
    mark_region(&grid, &mut cell_types, 70, 15, 4, 2, CellType::Oscillator);
    proof {
        assert((grid_of(&grid), grid_of(&cell_types)) == layout_upto(7));
    }
    create_beacon(&mut grid, 70, 25);
    mark_region(&grid, &mut cell_types, 70, 25, 4, 4, CellType::Oscillator);
    proof {
        assert((grid_of(&grid), grid_of(&cell_types)) == layout_upto(8));
    }
    create_pulsar(&mut grid, 55, 40);
    mark_region(&grid, &mut cell_types, 55, 40, 13, 13, CellType::Oscillator);
    proof {
        assert((grid_of(&grid), grid_of(&cell_types)) == layout_upto(9));
    }
    create_pentadecathlon(&mut grid, 85, 10);
    mark_region(&grid, &mut cell_types, 85, 10, 3, 10, CellType::Oscillator);
    proof {
        assert((grid_of(&grid), grid_of(&cell_types)) == layout_upto(10));
    }
    create_glider(&mut grid, 10, 70);
    mark_region(&grid, &mut cell_types, 10, 70, 3, 3, CellType::Spaceship);
    proof {
        assert((grid_of(&grid), grid_of(&cell_types)) == layout_upto(11));
    }
    create_glider(&mut grid, 20, 80);
    mark_region(&grid, &mut cell_types, 20, 80, 3, 3, CellType::Spaceship);
    proof {
        assert((grid_of(&grid), grid_of(&cell_types)) == layout_upto(12));
    }
    create_lwss(&mut grid, 35, 70);
    mark_region(&grid, &mut cell_types, 35, 70, 5, 4, CellType::Spaceship);
    proof {
        assert((grid_of(&grid), grid_of(&cell_types)) == layout_upto(13));
    }
    create_gosper_glider_gun(&mut grid, 55, 80);
    mark_region(&grid, &mut cell_types, 55, 80, 36, 9, CellType::Custom);
    proof {
        assert((grid_of(&grid), grid_of(&cell_types)) == layout_upto(14));
    }
    create_r_pentomino(&mut grid, 75, 60);
    mark_region(&grid, &mut cell_types, 75, 60, 3, 3, CellType::Custom);
    proof {
        assert((grid_of(&grid), grid_of(&cell_types)) == layout_upto(15));
    }
    create_acorn(&mut grid, 80, 65);
    mark_region(&grid, &mut cell_types, 80, 65, 7, 2, CellType::Custom);
    proof {
        assert((grid_of(&grid), grid_of(&cell_types)) == layout_upto(16));
    }
    create_diehard(&mut grid, 60, 60);
    mark_region(&grid, &mut cell_types, 60, 60, 8, 3, CellType::Custom);
    proof {
        assert((grid_of(&grid), grid_of(&cell_types)) == layout_upto(17));
    }
    (grid, cell_types)
}


} // verus!
