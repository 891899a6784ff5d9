use conway_life::life::{count_live_neighbors, update_grid, CellType};
use conway_life::patterns::{
    create_blinker, create_block, create_gosper_glider_gun, create_pulsar, initialize_grid,
    mark_region, new_world, stamp, GRID_HEIGHT, GRID_WIDTH,
};

type World = (Vec<Vec<bool>>, Vec<Vec<CellType>>);

fn alive_cells(grid: &Vec<Vec<bool>>) -> Vec<(usize, usize)> {
    let mut out = Vec::new();
    for (y, row) in grid.iter().enumerate() {
        for (x, a) in row.iter().enumerate() {
            if *a {
                out.push((x, y));
            }
        }
    }
    out
}

fn world_with(w: usize, h: usize, cells: &[(usize, usize)], tag: CellType) -> World {
    let (mut g, mut t) = new_world(w, h);
    for &(x, y) in cells {
        g[y][x] = true;
        t[y][x] = tag;
    }
    (g, t)
}

#[test]
fn corner_wraps_to_origin() {
    let (g, _) = world_with(100, 100, &[(0, 0), (99, 99)], CellType::Custom);
    assert_eq!(count_live_neighbors(&g, 0, 0), 1);
    assert_eq!(count_live_neighbors(&g, 99, 99), 1);
    assert_eq!(count_live_neighbors(&g, 50, 50), 0);
}

#[test]
fn edges_wrap_both_axes() {
    let (g, _) = world_with(5, 4, &[(4, 0), (0, 3), (1, 1)], CellType::Custom);
    assert_eq!(count_live_neighbors(&g, 0, 0), 3);
}

#[test]
fn isolated_cell_dies() {
    let w = world_with(10, 10, &[(5, 5)], CellType::StillLife);
    let (g, t) = update_grid(&w);
    assert!(!g[5][5]);
    assert_eq!(t[5][5], CellType::Dead);
    assert!(alive_cells(&g).is_empty());
}

#[test]
fn survivor_keeps_tag() {
    // (5,5) has two live neighbors, (4,5) and (6,5).
    let w = world_with(10, 10, &[(4, 5), (5, 5), (6, 5)], CellType::Spaceship);
    let (g, t) = update_grid(&w);
    assert!(g[5][5]);
    assert_eq!(t[5][5], CellType::Spaceship);
    // A block: each cell has three live neighbors.
    let w = world_with(10, 10, &[(2, 2), (3, 2), (2, 3), (3, 3)], CellType::StillLife);
    let (g, t) = update_grid(&w);
    assert_eq!(alive_cells(&g), vec![(2, 2), (3, 2), (2, 3), (3, 3)]);
    assert_eq!(t[2][2], CellType::StillLife);
    assert_eq!(t[3][3], CellType::StillLife);
}

#[test]
fn overcrowded_cell_dies() {
    let w = world_with(10, 10, &[(5, 5), (4, 4), (6, 4), (4, 6), (6, 6)], CellType::Custom);
    let (g, t) = update_grid(&w);
    assert!(!g[5][5]);
    assert_eq!(t[5][5], CellType::Dead);
}

#[test]
fn birth_is_tagged_generated() {
    let w = world_with(10, 10, &[(4, 4), (5, 4), (6, 4)], CellType::StillLife);
    let (g, t) = update_grid(&w);
    assert!(g[3][5]);
    assert!(g[5][5]);
    assert_eq!(t[3][5], CellType::Generated);
    assert_eq!(t[5][5], CellType::Generated);
    assert_eq!(t[4][5], CellType::StillLife);
    assert_eq!(t[4][4], CellType::Dead);
}

#[test]
fn step_leaves_input_untouched() {
    let w = world_with(10, 10, &[(4, 4), (5, 4), (6, 4)], CellType::Oscillator);
    let copy = w.clone();
    let _ = update_grid(&w);
    assert_eq!(w, copy);
}

fn blinker_world(x: usize, y: usize) -> World {
    let (mut g, mut t) = new_world(GRID_WIDTH, GRID_HEIGHT);
    create_blinker(&mut g, x, y);
    mark_region(&g, &mut t, x, y, 3, 1, CellType::Oscillator);
    (g, t)
}

#[test]
fn blinker_has_period_two() {
    let w0 = blinker_world(10, 10);
    assert_eq!(alive_cells(&w0.0), vec![(10, 10), (11, 10), (12, 10)]);
    let w1 = update_grid(&w0);
    assert_eq!(alive_cells(&w1.0), vec![(11, 9), (11, 10), (11, 11)]);
    assert_eq!(w1.1[10][11], CellType::Oscillator);
    assert_eq!(w1.1[9][11], CellType::Generated);
    assert_eq!(w1.1[11][11], CellType::Generated);
    let w2 = update_grid(&w1);
    assert_eq!(w2.0, w0.0);
    assert_eq!(w2.1[10][11], CellType::Oscillator);
    assert_eq!(w2.1[10][10], CellType::Generated);
    assert_eq!(w2.1[10][12], CellType::Generated);
}

#[test]
fn blinker_wraps_across_edge() {
    let w0 = blinker_world(97, 0);
    let w1 = update_grid(&w0);
    assert_eq!(alive_cells(&w1.0), vec![(98, 0), (98, 1), (98, 99)]);
    let w2 = update_grid(&w1);
    assert_eq!(w2.0, w0.0);
}

#[test]
fn initialize_grid_is_deterministic() {
    let a = initialize_grid();
    let b = initialize_grid();
    assert_eq!(a, b);
    assert_eq!(a.0.len(), GRID_HEIGHT);
    assert!(a.0.iter().all(|r| r.len() == GRID_WIDTH));
}

#[test]
fn initial_layout_is_tagged_by_family() {
    let (g, t) = initialize_grid();
    assert!(g[10][10] && g[11][11]);
    assert_eq!(t[10][10], CellType::StillLife);
    assert_eq!(t[10][60], CellType::Oscillator);
    assert_eq!(t[70][11], CellType::Spaceship);
    assert_eq!(t[84][55], CellType::Custom);
    // Pulsar cells next to the custom patterns keep their own family.
    for &(x, y) in &[(60, 50), (62, 50), (67, 50), (63, 52), (64, 52), (65, 52)] {
        assert!(g[y][x]);
        assert_eq!(t[y][x], CellType::Oscillator);
    }
    // Diehard at (60, 60), R-pentomino at (75, 60), acorn at (80, 65).
    assert!(g[60][60] && g[61][61] && g[62][66]);
    assert_eq!(t[60][60], CellType::Custom);
    assert_eq!(t[60][76], CellType::Custom);
    assert_eq!(t[65][81], CellType::Custom);
    for y in 0..GRID_HEIGHT {
        for x in 0..GRID_WIDTH {
            assert_eq!(g[y][x], t[y][x] != CellType::Dead);
            assert_ne!(t[y][x], CellType::Generated);
        }
    }
    // 26 still-life, 77 oscillator, 19 spaceship and 55 custom cells, no
    // two patterns sharing a cell.
    assert_eq!(alive_cells(&g).len(), 26 + 77 + 19 + 55);
    let count = |c: CellType| t.iter().flatten().filter(|x| **x == c).count();
    assert_eq!(count(CellType::StillLife), 26);
    assert_eq!(count(CellType::Oscillator), 77);
    assert_eq!(count(CellType::Spaceship), 19);
    assert_eq!(count(CellType::Custom), 55);
}

#[test]
fn out_of_bounds_pattern_is_rejected() {
    let (mut g, _) = new_world(100, 100);
    create_block(&mut g, 3, 3);
    let before = g.clone();
    create_pulsar(&mut g, 90, 10);
    assert_eq!(g, before);
    create_block(&mut g, 99, 0);
    assert_eq!(g, before);
    create_gosper_glider_gun(&mut g, 10, 92);
    assert_eq!(g, before);
    create_blinker(&mut g, usize::MAX, 0);
    assert_eq!(g, before);
}

#[test]
fn pattern_fits_exactly_at_edge() {
    let (mut g, _) = new_world(100, 100);
    create_pulsar(&mut g, 87, 87);
    assert_eq!(alive_cells(&g).len(), 48);
    assert!(g[99][89]);
    assert!(g[89][99]);
}

#[test]
fn stamp_sets_only_shape_cells() {
    let (mut g, _) = new_world(4, 4);
    stamp(&mut g, &vec![(0, 0), (2, 1)], 3, 2, 1, 1);
    assert_eq!(alive_cells(&g), vec![(1, 1), (3, 2)]);
}

#[test]
fn mark_region_tags_only_alive_cells_in_box() {
    let (mut g, mut t) = new_world(6, 6);
    g[1][1] = true;
    g[1][4] = true;
    g[4][1] = true;
    mark_region(&g, &mut t, 0, 0, 3, 3, CellType::Spaceship);
    assert_eq!(t[1][1], CellType::Spaceship);
    assert_eq!(t[1][4], CellType::Dead);
    assert_eq!(t[4][1], CellType::Dead);
    assert_eq!(t[0][0], CellType::Dead);
    mark_region(&g, &mut t, 3, 0, usize::MAX, usize::MAX, CellType::Custom);
    assert_eq!(t[1][4], CellType::Custom);
}
