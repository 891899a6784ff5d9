use vstd::prelude::*;
use vstd::arithmetic::div_mod::lemma_fundamental_div_mod_converse;

verus! {

/// The pattern family a live cell came from; `Dead` marks a cell that is
/// not alive.
#[derive(Clone, Copy, Debug, PartialEq, Eq, Structural)]
pub enum CellType {
    StillLife,
    Oscillator,
    Spaceship,
    Custom,
    Generated,
    Dead,
}

/// The rows of a nested vector, each as a sequence.
pub open spec fn grid_of<T>(v: &Vec<Vec<T>>) -> Seq<Seq<T>> {
    Seq::new(v@.len(), |y: int| v@[y]@)
}

/// `g` has `h` rows of `w` cells each.
pub open spec fn is_grid<T>(g: Seq<Seq<T>>, w: int, h: int) -> bool {
    &&& g.len() == h
    &&& forall|y: int| 0 <= y < h ==> #[trigger] g[y].len() == w
}

/// Writes `v` at column x of row y.
pub fn set_cell<T>(grid: &mut Vec<Vec<T>>, x: usize, y: usize, v: T)
    requires
        y < old(grid)@.len(),
        x < old(grid)@[y as int]@.len(),
    ensures
        grid_of(final(grid)) == grid_of(old(grid)).update(
            y as int,
            grid_of(old(grid))[y as int].update(x as int, v),
        ),
{
    let ghost g0 = grid_of(grid);
    grid[y][x] = v;
    proof {
        assert(grid_of(grid) =~= g0.update(y as int, g0[y as int].update(x as int, v)));
    }
}

/// The number of columns of `g`, read from its first row.
pub open spec fn width_of<T>(g: Seq<Seq<T>>) -> int {
    if g.len() == 0 {
        0
    } else {
        g[0].len() as int
    }
}

/// The cell at column x and row y, both taken modulo the grid's size, so
/// that each edge of the grid joins the opposite one.
pub open spec fn alive_at(g: Seq<Seq<bool>>, x: int, y: int) -> bool {
    g[y % g.len() as int][x % width_of(g)]
}

pub open spec fn live(g: Seq<Seq<bool>>, x: int, y: int) -> int {
    if alive_at(g, x, y) {
        1
    } else {
        0
    }
}

/// How many of the eight cells around (x, y) on the torus are alive.
pub open spec fn live_neighbors(g: Seq<Seq<bool>>, x: int, y: int) -> int {
    live(g, x - 1, y - 1) + live(g, x, y - 1) + live(g, x + 1, y - 1) + live(g, x - 1, y) + live(
        g,
        x + 1,
        y,
    ) + live(g, x - 1, y + 1) + live(g, x, y + 1) + live(g, x + 1, y + 1)
}

/// Whether (x, y) is alive in the next generation: a live cell survives
/// with two or three live neighbors, a dead cell is born with exactly three.
pub open spec fn next_alive(g: Seq<Seq<bool>>, x: int, y: int) -> bool {
    let n = live_neighbors(g, x, y);
    if g[y][x] {
        n == 2 || n == 3
    } else {
        n == 3
    }
}

/// The tag of (x, y) in the next generation: a survivor keeps its tag, a
/// newborn cell is `Generated`, every other cell is `Dead`.
pub open spec fn next_tag(g: Seq<Seq<bool>>, t: Seq<Seq<CellType>>, x: int, y: int) -> CellType {
    if next_alive(g, x, y) {
        if g[y][x] {
            t[y][x]
        } else {
            CellType::Generated
        }
    } else {
        CellType::Dead
    }
}

/// The alive grid one generation after `g`.
pub open spec fn next_grid(g: Seq<Seq<bool>>) -> Seq<Seq<bool>> {
    Seq::new(g.len(), |y: int| Seq::new(width_of(g) as nat, |x: int| next_alive(g, x, y)))
}

/// The tag grid one generation after (`g`, `t`).
pub open spec fn next_tags(g: Seq<Seq<bool>>, t: Seq<Seq<CellType>>) -> Seq<Seq<CellType>> {
    Seq::new(g.len(), |y: int| Seq::new(width_of(g) as nat, |x: int| next_tag(g, t, x, y)))
}

/// Stepping one cell past either edge of a dimension of size `n` wraps to
/// the opposite edge.
pub proof fn lemma_wrap(a: int, n: int)
    requires
        0 < n,
        -1 <= a <= n,
    ensures
        a % n == if a < 0 {
            a + n
        } else if a == n {
            0
        } else {
            a
        },
{
    if a < 0 {
        lemma_fundamental_div_mod_converse(a, n, -1, a + n);
    } else if a == n {
        lemma_fundamental_div_mod_converse(a, n, 1, 0);
    } else {
        lemma_fundamental_div_mod_converse(a, n, 0, a);
    }
}

/// The grid is a torus: the corner cell (w-1, h-1) is a neighbor of (0, 0).
/// When it is alive, clearing it lowers the live-neighbor count of (0, 0);
/// on a grid of at least 3 by 3 it lowers it by exactly one.
pub proof fn lemma_corner_is_neighbor_of_origin(g: Seq<Seq<bool>>)
    requires
        is_grid(g, width_of(g), g.len() as int),
        g.len() > 0,
        width_of(g) > 0,
        g[g.len() - 1][width_of(g) - 1],
    ensures
        ({
            let h = g.len() as int;
            let w = width_of(g);
            let cleared = g.update(h - 1, g[h - 1].update(w - 1, false));
            &&& live_neighbors(cleared, 0, 0) < live_neighbors(g, 0, 0)
            &&& (w >= 3 && h >= 3) ==> live_neighbors(cleared, 0, 0) + 1 == live_neighbors(
                g,
                0,
                0,
            )
        }),
{
    let h = g.len() as int;
    let w = width_of(g);
    let cleared = g.update(h - 1, g[h - 1].update(w - 1, false));
    assert(width_of(cleared) == w);
    lemma_wrap(-1, w);
    lemma_wrap(0, w);
    lemma_wrap(1, w);
    lemma_wrap(-1, h);
    lemma_wrap(0, h);
    lemma_wrap(1, h);
}

/// The survival and death cases of the rule: a live cell with no live
/// neighbor dies, one with two or three survives with its tag unchanged,
/// and one with four or more dies.
pub proof fn lemma_rule_for_live_cells(g: Seq<Seq<bool>>, t: Seq<Seq<CellType>>, x: int, y: int)
    requires
        is_grid(g, width_of(g), g.len() as int),
        0 <= y < g.len(),
        0 <= x < width_of(g),
        g[y][x],
    ensures
        live_neighbors(g, x, y) == 0 ==> !next_grid(g)[y][x] && next_tags(g, t)[y][x]
            == CellType::Dead,
        live_neighbors(g, x, y) == 2 || live_neighbors(g, x, y) == 3 ==> next_grid(g)[y][x]
            && next_tags(g, t)[y][x] == t[y][x],
        live_neighbors(g, x, y) >= 4 ==> !next_grid(g)[y][x] && next_tags(g, t)[y][x]
            == CellType::Dead,
{
}

/// A cell that is dead and becomes alive is always tagged `Generated`,
/// whatever the tags of the cells around it.
pub proof fn lemma_birth_is_generated(g: Seq<Seq<bool>>, t: Seq<Seq<CellType>>, x: int, y: int)
    requires
        is_grid(g, width_of(g), g.len() as int),
        0 <= y < g.len(),
        0 <= x < width_of(g),
        !g[y][x],
        next_grid(g)[y][x],
    ensures
        next_tags(g, t)[y][x] == CellType::Generated,
        live_neighbors(g, x, y) == 3,
{
}

/// Counts the live toroidal neighbors of (x, y).
pub fn count_live_neighbors(grid: &Vec<Vec<bool>>, x: usize, y: usize) -> (n: u8)
    requires
        is_grid(grid_of(grid), width_of(grid_of(grid)), grid@.len() as int),
        y < grid@.len(),
        x < width_of(grid_of(grid)),
    ensures
        n == live_neighbors(grid_of(grid), x as int, y as int),
{
    let ghost g = grid_of(grid);
    let h = grid.len();
    let w = grid[0].len();
    let xm: usize = if x == 0 { w - 1 } else { x - 1 };
    let xp: usize = if x + 1 == w { 0 } else { x + 1 };
    let ym: usize = if y == 0 { h - 1 } else { y - 1 };
    let yp: usize = if y + 1 == h { 0 } else { y + 1 };
    proof {
        lemma_wrap(x - 1, w as int);
        lemma_wrap(x as int, w as int);
        lemma_wrap(x + 1, w as int);
        lemma_wrap(y - 1, h as int);
        lemma_wrap(y as int, h as int);
        lemma_wrap(y + 1, h as int);
        assert(g[ym as int] == grid@[ym as int]@);
        assert(g[y as int] == grid@[y as int]@);
        assert(g[yp as int] == grid@[yp as int]@);
    }
    let mut n: u8 = 0;
    if grid[ym][xm] {
        n = n + 1;
    }
    if grid[ym][x] {
        n = n + 1;
    }
    if grid[ym][xp] {
        n = n + 1;
    }
    if grid[y][xm] {
        n = n + 1;
    }
    if grid[y][xp] {
        n = n + 1;
    }
    if grid[yp][xm] {
        n = n + 1;
    }
    if grid[yp][x] {
        n = n + 1;
    }
    if grid[yp][xp] {
        n = n + 1;
    }
    n
}

/// Advances the world one generation under the B3/S23 rule on the torus.
/// Every cell is computed from the given snapshot alone, which is left
/// untouched; survivors keep their tag, newborn cells are `Generated` and
/// dead cells are `Dead`.
pub fn update_grid(data: &(Vec<Vec<bool>>, Vec<Vec<CellType>>)) -> (r: (
    Vec<Vec<bool>>,
    Vec<Vec<CellType>>,
))
    requires
        is_grid(grid_of(&data.0), width_of(grid_of(&data.0)), data.0@.len() as int),
        is_grid(grid_of(&data.1), width_of(grid_of(&data.0)), data.0@.len() as int),
    ensures
        grid_of(&r.0) == next_grid(grid_of(&data.0)),
        grid_of(&r.1) == next_tags(grid_of(&data.0), grid_of(&data.1)),
{
    let grid = &data.0;
    let cell_types = &data.1;
    let ghost g = grid_of(grid);
    let ghost t = grid_of(cell_types);
    let h = grid.len();
    let w: usize = if h == 0 { 0 } else { grid[0].len() };
    let mut new_grid: Vec<Vec<bool>> = Vec::new();
    let mut new_cell_types: Vec<Vec<CellType>> = Vec::new();
    let mut y: usize = 0;
    while y < h
        invariant
            g == grid_of(grid),
            t == grid_of(cell_types),
            h == g.len(),
            w == width_of(g),
            is_grid(g, w as int, h as int),
            is_grid(t, w as int, h as int),
            y <= h,
            new_grid@.len() == y,
            new_cell_types@.len() == y,
            forall|yy: int| 0 <= yy < y ==> #[trigger] new_grid@[yy]@ == next_grid(g)[yy],
            forall|yy: int| 0 <= yy < y ==> #[trigger] new_cell_types@[yy]@ == next_tags(g, t)[yy],
        decreases h - y,
    {
        let mut row: Vec<bool> = Vec::new();
        let mut tag_row: Vec<CellType> = Vec::new();
        let mut x: usize = 0;
        while x < w
            invariant
                g == grid_of(grid),
                t == grid_of(cell_types),
                h == g.len(),
                w == width_of(g),
                is_grid(g, w as int, h as int),
                is_grid(t, w as int, h as int),
                y < h,
                x <= w,
                row@.len() == x,
                tag_row@.len() == x,
                forall|xx: int| 0 <= xx < x ==> #[trigger] row@[xx] == next_alive(g, xx, y as int),
                forall|xx: int|
                    0 <= xx < x ==> #[trigger] tag_row@[xx] == next_tag(g, t, xx, y as int),
            decreases w - x,
        {
            let n = count_live_neighbors(grid, x, y);
            proof {
                assert(g[y as int] == grid@[y as int]@);
                assert(t[y as int] == cell_types@[y as int]@);
            }
            if grid[y][x] {
                if n < 2 || n > 3 {
                    row.push(false);
                    tag_row.push(CellType::Dead);
                } else {
                    row.push(true);
                    tag_row.push(cell_types[y][x]);
                }
            } else {
                if n == 3 {
                    row.push(true);
                    tag_row.push(CellType::Generated);
                } else {
                    row.push(false);
                    tag_row.push(CellType::Dead);
                }
            }
            x = x + 1;
        }
        proof {
            assert(row@ =~= next_grid(g)[y as int]);
            assert(tag_row@ =~= next_tags(g, t)[y as int]);
        }
        new_grid.push(row);
        new_cell_types.push(tag_row);
        y = y + 1;
    }
    proof {
        assert(grid_of(&new_grid) =~= next_grid(g));
        assert(grid_of(&new_cell_types) =~= next_tags(g, t));
    }
    (new_grid, new_cell_types)
}

} // verus!
