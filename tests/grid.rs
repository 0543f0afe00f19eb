use conway_game_of_rust::grid::{CellState, Grid};

fn grid_with(width: usize, height: usize, alive: &[(usize, usize)]) -> Grid {
    let mut g = Grid::new(width, height);
    for &(r, c) in alive {
        g.set(r, c, CellState::Alive);
    }
    g
}

fn alive_cells(g: &Grid) -> Vec<(usize, usize)> {
    let mut out = Vec::new();
    for r in 0..g.height() {
        for c in 0..g.width() {
            if g.get(r, c) == Some(&CellState::Alive) {
                out.push((r, c));
            }
        }
    }
    out
}

#[test]
fn new_board_is_dead_and_sized() {
    let g = Grid::new(4, 3);
    assert_eq!(g.width(), 4);
    assert_eq!(g.height(), 3);
    for r in 0..3 {
        for c in 0..4 {
            assert_eq!(g.get(r, c), Some(&CellState::Dead));
        }
    }
}

#[test]
fn default_board_is_128_by_80() {
    let g = Grid::default();
    assert_eq!(g.width(), 128);
    assert_eq!(g.height(), 80);
    assert!(alive_cells(&g).is_empty());
}

#[test]
fn set_then_get_in_bounds() {
    let mut g = Grid::new(5, 4);
    g.set(3, 4, CellState::Alive);
    assert_eq!(g.get(3, 4), Some(&CellState::Alive));
    g.set(3, 4, CellState::Dead);
    assert_eq!(g.get(3, 4), Some(&CellState::Dead));
}

#[test]
fn get_out_of_bounds_is_none() {
    let g = Grid::new(5, 4);
    assert_eq!(g.get(4, 0), None);
    assert_eq!(g.get(0, 5), None);
    assert_eq!(g.get(usize::MAX, usize::MAX), None);
}

#[test]
fn column_past_the_edge_does_not_reach_next_row() {
    let mut g = Grid::new(3, 3);
    g.set(1, 0, CellState::Alive);
    assert_eq!(g.get(0, 3), None);
    g.set(0, 3, CellState::Alive);
    assert_eq!(alive_cells(&g), vec![(1, 0)]);
}

#[test]
fn set_out_of_bounds_is_noop() {
    let mut g = grid_with(3, 3, &[(1, 1)]);
    let before = g.render_lines();
    g.set(3, 0, CellState::Alive);
    g.set(0, 7, CellState::Alive);
    g.set(usize::MAX, usize::MAX, CellState::Alive);
    assert_eq!(g.render_lines(), before);
}

#[test]
fn toggle_cell_flips_and_twice_restores() {
    let mut g = grid_with(4, 4, &[(0, 0), (2, 3)]);
    let before = g.render_lines();
    g.toggle_cell(1, 2);
    assert_eq!(g.get(1, 2), Some(&CellState::Alive));
    g.toggle_cell(1, 2);
    assert_eq!(g.render_lines(), before);
    g.toggle_cell(0, 0);
    assert_eq!(g.get(0, 0), Some(&CellState::Dead));
    g.toggle_cell(0, 0);
    assert_eq!(g.render_lines(), before);
}

#[test]
fn toggle_cell_out_of_bounds_is_noop() {
    let mut g = grid_with(2, 2, &[(1, 1)]);
    g.toggle_cell(2, 0);
    g.toggle_cell(0, 2);
    assert_eq!(alive_cells(&g), vec![(1, 1)]);
}

#[test]
fn reset_clears_every_cell() {
    let mut g = grid_with(6, 5, &[(0, 0), (2, 3), (4, 5)]);
    g.reset();
    assert_eq!(g.width(), 6);
    assert_eq!(g.height(), 5);
    for r in 0..5 {
        for c in 0..6 {
            assert_eq!(g.get(r, c), Some(&CellState::Dead));
        }
    }
    assert_eq!(g.render_lines(), Grid::new(6, 5).render_lines());
}

#[test]
fn multi_toggle_flips_inclusive_rectangle() {
    let mut g = grid_with(5, 5, &[(1, 1)]);
    g.multi_toggle_cells(1, 2, 1, 3);
    assert_eq!(alive_cells(&g), vec![(1, 2), (1, 3), (2, 1), (2, 2), (2, 3)]);
}

#[test]
fn multi_toggle_truncates_at_the_edge() {
    let mut g = Grid::new(3, 3);
    g.multi_toggle_cells(1, 10, 2, 10);
    assert_eq!(alive_cells(&g), vec![(1, 2), (2, 2)]);
    let mut h = Grid::new(3, 3);
    h.multi_toggle_cells(5, 9, 0, 2);
    assert!(alive_cells(&h).is_empty());
}

#[test]
fn multi_toggle_single_cell_equals_toggle_cell() {
    let mut a = grid_with(4, 3, &[(0, 1), (2, 2)]);
    let mut b = grid_with(4, 3, &[(0, 1), (2, 2)]);
    a.multi_toggle_cells(2, 2, 2, 2);
    b.toggle_cell(2, 2);
    assert_eq!(a.render_lines(), b.render_lines());
    a.multi_toggle_cells(1, 1, 3, 3);
    b.toggle_cell(1, 3);
    assert_eq!(a.render_lines(), b.render_lines());
    a.multi_toggle_cells(7, 7, 1, 1);
    b.toggle_cell(7, 1);
    assert_eq!(a.render_lines(), b.render_lines());
}

#[test]
fn render_lines_text() {
    let g = grid_with(3, 2, &[(0, 0), (1, 2)]);
    assert_eq!(g.render_lines(), vec!["# . .".to_string(), ". . #".to_string()]);
    let one = grid_with(1, 1, &[(0, 0)]);
    assert_eq!(one.render_lines(), vec!["#".to_string()]);
}

#[test]
fn advance_is_deterministic() {
    let cells = [(0, 1), (1, 2), (2, 0), (2, 1), (2, 2)];
    let mut a = grid_with(6, 6, &cells);
    let mut b = grid_with(6, 6, &cells);
    a.next_generation();
    b.next_generation();
    assert_eq!(a.render_lines(), b.render_lines());
}

#[test]
fn live_cell_with_two_or_three_neighbors_survives() {
    let mut g = grid_with(5, 5, &[(2, 2), (1, 1), (3, 3)]);
    g.next_generation();
    assert_eq!(g.get(2, 2), Some(&CellState::Alive));
    let mut h = grid_with(5, 5, &[(2, 2), (1, 1), (3, 3), (1, 3)]);
    h.next_generation();
    assert_eq!(h.get(2, 2), Some(&CellState::Alive));
}

#[test]
fn live_cell_with_too_few_or_too_many_neighbors_dies() {
    let mut lone = grid_with(5, 5, &[(2, 2), (1, 1)]);
    lone.next_generation();
    assert_eq!(lone.get(2, 2), Some(&CellState::Dead));
    let mut crowded = grid_with(5, 5, &[(2, 2), (1, 1), (1, 3), (3, 1), (3, 3)]);
    crowded.next_generation();
    assert_eq!(crowded.get(2, 2), Some(&CellState::Dead));
    let mut full = Grid::new(3, 3);
    full.multi_toggle_cells(0, 2, 0, 2);
    full.next_generation();
    assert_eq!(full.get(1, 1), Some(&CellState::Dead));
    assert_eq!(alive_cells(&full), vec![(0, 0), (0, 2), (2, 0), (2, 2)]);
}

#[test]
fn dead_cell_with_three_neighbors_is_born() {
    let mut g = grid_with(5, 5, &[(1, 1), (1, 3), (3, 2)]);
    g.next_generation();
    assert_eq!(g.get(2, 2), Some(&CellState::Alive));
    let mut two = grid_with(5, 5, &[(1, 1), (1, 3)]);
    two.next_generation();
    assert_eq!(two.get(2, 2), Some(&CellState::Dead));
    let mut four = grid_with(5, 5, &[(1, 1), (1, 3), (3, 1), (3, 3)]);
    four.next_generation();
    assert_eq!(four.get(2, 2), Some(&CellState::Dead));
}

#[test]
fn lone_corner_cell_dies_without_wraparound() {
    let mut g = grid_with(3, 3, &[(0, 0)]);
    g.next_generation();
    assert!(alive_cells(&g).is_empty());
}

#[test]
fn corners_see_no_neighbors_across_edges() {
    let mut g = grid_with(4, 4, &[(0, 3), (3, 0), (3, 3)]);
    g.next_generation();
    assert_eq!(g.get(0, 0), Some(&CellState::Dead));
    let mut h = grid_with(3, 3, &[(0, 0), (0, 2), (2, 0)]);
    h.next_generation();
    assert_eq!(alive_cells(&h), vec![(1, 1)]);
}

#[test]
fn block_is_a_still_life() {
    let block = [(2, 2), (2, 3), (3, 2), (3, 3)];
    let mut g = grid_with(6, 6, &block);
    g.next_generation();
    assert_eq!(alive_cells(&g), block.to_vec());
    let corner = [(0, 0), (0, 1), (1, 0), (1, 1)];
    let mut h = grid_with(4, 4, &corner);
    h.next_generation();
    assert_eq!(alive_cells(&h), corner.to_vec());
}

#[test]
fn blinker_oscillates_with_period_two() {
    let row = [(2, 1), (2, 2), (2, 3)];
    let mut g = grid_with(5, 5, &row);
    let start = g.render_lines();
    g.next_generation();
    assert_eq!(alive_cells(&g), vec![(1, 2), (2, 2), (3, 2)]);
    g.next_generation();
    assert_eq!(alive_cells(&g), row.to_vec());
    assert_eq!(g.render_lines(), start);
}

#[test]
fn glider_moves_diagonally() {
    let mut g = grid_with(6, 6, &[(0, 1), (1, 2), (2, 0), (2, 1), (2, 2)]);
    for _ in 0..4 {
        g.next_generation();
    }
    assert_eq!(alive_cells(&g), vec![(1, 2), (2, 3), (3, 1), (3, 2), (3, 3)]);
}

#[test]
fn cell_state_toggle() {
    assert_eq!(CellState::Alive.toggle(), CellState::Dead);
    assert_eq!(CellState::Dead.toggle(), CellState::Alive);
}
