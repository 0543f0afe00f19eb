//! Laws of the board model that the grid's operations satisfy, stated over the
//! same spec functions as their contracts.

use crate::editor::{span, AppModel, Key};
use crate::grid::{
    lemma_blank_cell, lemma_board_ext, lemma_index_bound, lemma_index_split, lemma_next_cell,
    lemma_set_cell, lemma_toggled_rect_cell, Board, CellState,
};
use vstd::prelude::*;

verus! {

impl Board {
    /// The live cells of the board are exactly those in bounds where `live` holds.
    pub open spec fn alive_exactly(self, live: spec_fn(int, int) -> bool) -> bool {
        forall|r: int, c: int|
            self.in_bounds(r, c) ==> #[trigger] self.cell(r, c) == (if live(r, c) {
                CellState::Alive
            } else {
                CellState::Dead
            })
    }
}

/// Reading a cell right after setting it gives the state that was set; off the
/// board a read finds nothing and a write leaves the board as it was.
pub proof fn set_then_get(b: Board, r: int, c: int, s: CellState)
    requires
        b.wf(),
    ensures
        b.in_bounds(r, c) ==> b.set(r, c, s).get(r, c) == Some(s),
        !b.in_bounds(r, c) ==> b.get(r, c) is None && b.set(r, c, s) == b,
        b.set(r, c, s).wf(),
{
    if b.in_bounds(r, c) {
        lemma_set_cell(b, r, c, s, r, c);
    }
}

/// Flipping a cell twice gives back the board it started from.
pub proof fn toggle_twice(b: Board, r: int, c: int)
    requires
        b.wf(),
    ensures
        b.toggled(r, c).toggled(r, c) == b,
{
    if b.in_bounds(r, c) {
        lemma_index_bound(b.width, b.height, r, c);
        assert(b.toggled(r, c).toggled(r, c).cells =~= b.cells);
    }
}

/// A cleared board, like a new one, is well formed and holds dead cells only.
pub proof fn blank_is_dead(width: int, height: int, r: int, c: int)
    requires
        width > 0,
        height > 0,
        0 <= r < height,
        0 <= c < width,
    ensures
        Board::blank(width, height).wf(),
        Board::blank(width, height).get(r, c) == Some(CellState::Dead),
{
    lemma_blank_cell(width, height, r, c);
}

/// Flipping the one-cell rectangle `[a, a] x [b, b]` is flipping the cell `(a, b)`.
pub proof fn single_cell_rect(g: Board, a: int, b: int)
    requires
        g.wf(),
    ensures
        g.toggled_rect(a, a, b, b) == g.toggled(a, b),
{
    let rect = g.toggled_rect(a, a, b, b);
    let one = g.toggled(a, b);
    assert forall|i: int, j: int| g.in_bounds(i, j) implies #[trigger] rect.cell(i, j) == one.cell(
        i,
        j,
    ) by {
        lemma_toggled_rect_cell(g, a, a, b, b, i, j);
        if g.in_bounds(a, b) {
            lemma_set_cell(g, a, b, g.cell(a, b).flipped(), i, j);
        }
    }
    lemma_toggled_rect_cell(g, a, a, b, b, 0, 0);
    if g.in_bounds(a, b) {
        lemma_set_cell(g, a, b, g.cell(a, b).flipped(), 0, 0);
    }
    lemma_board_ext(rect, one);
}

/// The next generation depends on the board alone: equal boards advance to equal boards.
pub proof fn advance_deterministic(a: Board, b: Board)
    requires
        a == b,
    ensures
        a.next() == b.next(),
{
}

/// The rule of each cell: a live cell with two or three live neighbors stays alive
/// and any other live cell dies; a dead cell with exactly three live neighbors
/// comes alive and any other dead cell stays dead.
pub proof fn life_rules(b: Board, r: int, c: int)
    requires
        b.wf(),
        b.in_bounds(r, c),
    ensures
        b.next().wf(),
        0 <= b.live_neighbors(r, c) <= 8,
        b.cell(r, c) == CellState::Alive && (b.live_neighbors(r, c) == 2 || b.live_neighbors(r, c)
            == 3) ==> b.next().cell(r, c) == CellState::Alive,
        b.cell(r, c) == CellState::Alive && !(b.live_neighbors(r, c) == 2 || b.live_neighbors(r, c)
            == 3) ==> b.next().cell(r, c) == CellState::Dead,
        b.cell(r, c) == CellState::Dead && b.live_neighbors(r, c) == 3 ==> b.next().cell(r, c)
            == CellState::Alive,
        b.cell(r, c) == CellState::Dead && b.live_neighbors(r, c) != 3 ==> b.next().cell(r, c)
            == CellState::Dead,
{
    lemma_next_cell(b, r, c);
}

/// The board has no wraparound: a corner cell has at most three neighbors to count,
/// and any other cell on an edge at most five.
pub proof fn edges_do_not_wrap(b: Board, r: int, c: int)
    requires
        b.wf(),
        b.in_bounds(r, c),
    ensures
        (r == 0 || r == b.height - 1) && (c == 0 || c == b.width - 1) ==> b.live_neighbors(r, c)
            <= 3,
        (r == 0 || r == b.height - 1 || c == 0 || c == b.width - 1) ==> b.live_neighbors(r, c)
            <= 5,
{
}

/// A board with a single live cell is empty after one generation.
pub proof fn lone_cell_dies(b: Board, r0: int, c0: int)
    requires
        b.wf(),
        b.alive_exactly(|r: int, c: int| r == r0 && c == c0),
    ensures
        b.next() == Board::blank(b.width, b.height),
{
    let blank = Board::blank(b.width, b.height);
    assert forall|i: int, j: int| b.in_bounds(i, j) implies #[trigger] b.next().cell(i, j)
        == blank.cell(i, j) by {
        lemma_next_cell(b, i, j);
        lemma_blank_cell(b.width, b.height, i, j);
    }
    lemma_next_cell(b, 0, 0);
    lemma_blank_cell(b.width, b.height, 0, 0);
    lemma_board_ext(b.next(), blank);
}

/// The live cells of the 2 by 2 block with top-left corner `(r0, c0)`.
pub open spec fn block(r0: int, c0: int) -> spec_fn(int, int) -> bool {
    |r: int, c: int| r0 <= r <= r0 + 1 && c0 <= c <= c0 + 1
}

/// A lone 2 by 2 block is a still life: one generation leaves the board unchanged.
pub proof fn block_is_still(b: Board, r0: int, c0: int)
    requires
        b.wf(),
        0 <= r0 && r0 + 1 < b.height,
        0 <= c0 && c0 + 1 < b.width,
        b.alive_exactly(block(r0, c0)),
    ensures
        b.next() == b,
{
    assert forall|i: int, j: int| b.in_bounds(i, j) implies #[trigger] b.next().cell(i, j)
        == b.cell(i, j) by {
        lemma_next_cell(b, i, j);
    }
    lemma_next_cell(b, 0, 0);
    lemma_board_ext(b.next(), b);
}

/// The live cells of three in a row centred on `(r0, c0)`.
pub open spec fn row_of_three(r0: int, c0: int) -> spec_fn(int, int) -> bool {
    |r: int, c: int| r == r0 && c0 - 1 <= c <= c0 + 1
}

/// The live cells of three in a column centred on `(r0, c0)`.
pub open spec fn column_of_three(r0: int, c0: int) -> spec_fn(int, int) -> bool {
    |r: int, c: int| c == c0 && r0 - 1 <= r <= r0 + 1
}

/// A lone row of three turns into a column of three about the same centre.
pub proof fn blinker_turns_upright(b: Board, r0: int, c0: int)
    requires
        b.wf(),
        1 <= r0 && r0 + 1 < b.height,
        1 <= c0 && c0 + 1 < b.width,
        b.alive_exactly(row_of_three(r0, c0)),
    ensures
        b.next().wf(),
        b.next().alive_exactly(column_of_three(r0, c0)),
{
    assert forall|i: int, j: int| b.in_bounds(i, j) implies #[trigger] b.next().cell(i, j) == (if (
    column_of_three(r0, c0))(i, j) {
        CellState::Alive
    } else {
        CellState::Dead
    }) by {
        lemma_next_cell(b, i, j);
    }
    lemma_next_cell(b, 0, 0);
}

/// A lone column of three turns into a row of three about the same centre.
pub proof fn blinker_lies_down(b: Board, r0: int, c0: int)
    requires
        b.wf(),
        1 <= r0 && r0 + 1 < b.height,
        1 <= c0 && c0 + 1 < b.width,
        b.alive_exactly(column_of_three(r0, c0)),
    ensures
        b.next().wf(),
        b.next().alive_exactly(row_of_three(r0, c0)),
{
    assert forall|i: int, j: int| b.in_bounds(i, j) implies #[trigger] b.next().cell(i, j) == (if (
    row_of_three(r0, c0))(i, j) {
        CellState::Alive
    } else {
        CellState::Dead
    }) by {
        lemma_next_cell(b, i, j);
    }
    lemma_next_cell(b, 0, 0);
}

/// The blinker has period two: a lone row of three becomes a column after one
/// generation and the same row again after two.
pub proof fn blinker_oscillates(b: Board, r0: int, c0: int)
    requires
        b.wf(),
        1 <= r0 && r0 + 1 < b.height,
        1 <= c0 && c0 + 1 < b.width,
        b.alive_exactly(row_of_three(r0, c0)),
    ensures
        b.next().alive_exactly(column_of_three(r0, c0)),
        b.next().next() == b,
{
    blinker_turns_upright(b, r0, c0);
    blinker_lies_down(b.next(), r0, c0);
    let b2 = b.next().next();
    assert(forall|i: int, j: int| b.in_bounds(i, j) ==> #[trigger] b2.cell(i, j) == b.cell(i, j));
    lemma_board_ext(b2, b);
}

/// Whatever key is pressed, and whether or not a tick follows, the board keeps its
/// size and the cursor and the selection anchor stay on it.
pub proof fn cursor_stays_on_board(m: AppModel, key: Key)
    requires
        m.grid.wf(),
        m.cursor_ok(),
    ensures
        m.after_key(key).grid.wf(),
        m.after_key(key).grid.width == m.grid.width,
        m.after_key(key).grid.height == m.grid.height,
        m.after_key(key).cursor_ok(),
        m.after_tick().grid.wf(),
        m.after_tick().cursor_ok(),
{
    lemma_blank_cell(m.grid.width, m.grid.height, 0, 0);
    lemma_next_cell(m.grid, 0, 0);
    if let Some(a) = m.anchor {
        let (min_r, max_r, min_c, max_c) = span(m.cursor, a);
        lemma_toggled_rect_cell(m.grid, min_r as int, max_r as int, min_c as int, max_c as int, 0, 0);
    }
    let (row, col) = (m.cursor.0 as int, m.cursor.1 as int);
    lemma_set_cell(m.grid, row, col, m.grid.cell(row, col).flipped(), 0, 0);
}

} // verus!
