use vstd::prelude::*;

verus! {

/// The state of one cell.
#[derive(Copy, Clone, PartialEq, Eq, Structural, Debug)]
pub enum CellState {
    Alive,
    Dead,
}

impl CellState {
    /// The other state.
    pub open spec fn flipped(self) -> CellState {
        match self {
            CellState::Alive => CellState::Dead,
            CellState::Dead => CellState::Alive,
        }
    }

    /// Flips the state.
    pub fn toggle(&self) -> (r: CellState)
        ensures
            r == self.flipped(),
    {
        match self {
            CellState::Alive => CellState::Dead,
            CellState::Dead => CellState::Alive,
        }
    }
}

/// 1 if `b` holds, 0 otherwise.
pub open spec fn count_if(b: bool) -> int {
    if b {
        1
    } else {
        0
    }
}

/// The Game of Life rule: the next state of a cell in state `s` with `n` live neighbors.
pub open spec fn life_rule(s: CellState, n: int) -> CellState {
    match s {
        CellState::Alive => if n == 2 || n == 3 {
            CellState::Alive
        } else {
            CellState::Dead
        },
        CellState::Dead => if n == 3 {
            CellState::Alive
        } else {
            CellState::Dead
        },
    }
}

/// The character that shows a cell in text: `#` alive, `.` dead.
pub open spec fn glyph(s: CellState) -> char {
    match s {
        CellState::Alive => '#',
        CellState::Dead => '.',
    }
}

/// The mathematical model of a grid: its dimensions and its cells in row-major order.
pub struct Board {
    pub width: int,
    pub height: int,
    pub cells: Seq<CellState>,
}

impl Board {
    pub open spec fn wf(self) -> bool {
        &&& self.width > 0
        &&& self.height > 0
        &&& self.cells.len() == self.width * self.height
    }

    pub open spec fn in_bounds(self, r: int, c: int) -> bool {
        0 <= r < self.height && 0 <= c < self.width
    }

    /// The state of the in-bounds cell `(r, c)`.
    pub open spec fn cell(self, r: int, c: int) -> CellState {
        self.cells[r * self.width + c]
    }

    /// The state of `(r, c)`, or `None` off the board.
    pub open spec fn get(self, r: int, c: int) -> Option<CellState> {
        if self.in_bounds(r, c) {
            Some(self.cell(r, c))
        } else {
            None
        }
    }

    /// `(r, c)` is on the board and alive; there is nothing beyond the edges.
    pub open spec fn alive(self, r: int, c: int) -> bool {
        self.in_bounds(r, c) && self.cell(r, c) == CellState::Alive
    }

    /// The number of live cells among the eight around `(r, c)`.
    pub open spec fn live_neighbors(self, r: int, c: int) -> int {
        count_if(self.alive(r - 1, c - 1)) + count_if(self.alive(r - 1, c)) + count_if(
            self.alive(r - 1, c + 1),
        ) + count_if(self.alive(r, c - 1)) + count_if(self.alive(r, c + 1)) + count_if(
            self.alive(r + 1, c - 1),
        ) + count_if(self.alive(r + 1, c)) + count_if(self.alive(r + 1, c + 1))
    }

    /// Row `r` as text: the glyph of each cell, left to right, separated by single spaces.
    pub open spec fn row_text(self, r: int) -> Seq<char> {
        Seq::new(
            (2 * self.width - 1) as nat,
            |k: int|
                if k % 2 == 1 {
                    ' '
                } else {
                    glyph(self.cell(r, k / 2))
                },
        )
    }

    /// The state of `(r, c)` in the next generation.
    pub open spec fn next_cell(self, r: int, c: int) -> CellState {
        life_rule(self.cell(r, c), self.live_neighbors(r, c))
    }

    /// The board of the given size whose cell `(r, c)` is `f(r, c)`.
    pub open spec fn tabulate(width: int, height: int, f: spec_fn(int, int) -> CellState) -> Board {
        Board {
            width,
            height,
            cells: Seq::new((width * height) as nat, |k: int| f(k / width, k % width)),
        }
    }

    /// A board of the given size with every cell dead.
    pub open spec fn blank(width: int, height: int) -> Board {
        Board::tabulate(width, height, |r: int, c: int| CellState::Dead)
    }

    /// The next generation of the whole board.
    pub open spec fn next(self) -> Board {
        Board::tabulate(self.width, self.height, |r: int, c: int| self.next_cell(r, c))
    }

    /// The board with `(r, c)` set to `s`; unchanged if `(r, c)` is off the board.
    pub open spec fn set(self, r: int, c: int, s: CellState) -> Board {
        if self.in_bounds(r, c) {
            Board { cells: self.cells.update(r * self.width + c, s), ..self }
        } else {
            self
        }
    }

    /// The board with `(r, c)` flipped; unchanged if `(r, c)` is off the board.
    pub open spec fn toggled(self, r: int, c: int) -> Board {
        if self.in_bounds(r, c) {
            self.set(r, c, self.cell(r, c).flipped())
        } else {
            self
        }
    }

    /// The board with every cell of the inclusive rectangle
    /// `[min_r, max_r] x [min_c, max_c]` flipped; cells of it off the board are ignored.
    pub open spec fn toggled_rect(self, min_r: int, max_r: int, min_c: int, max_c: int) -> Board {
        Board::tabulate(
            self.width,
            self.height,
            |r: int, c: int|
                if min_r <= r <= max_r && min_c <= c <= max_c {
                    self.cell(r, c).flipped()
                } else {
                    self.cell(r, c)
                },
        )
    }
}

/// `k = r * w + c` with `0 <= c < w` splits back into `r` and `c`.
pub proof fn lemma_index_split(w: int, r: int, c: int)
    requires
        0 < w,
        0 <= c < w,
    ensures
        (r * w + c) / w == r,
        (r * w + c) % w == c,
{
    vstd::arithmetic::div_mod::lemma_fundamental_div_mod_converse(r * w + c, w, r, c);
}

/// The index of an in-bounds cell lies inside the buffer.
pub proof fn lemma_index_bound(w: int, h: int, r: int, c: int)
    requires
        0 <= r < h,
        0 <= c < w,
    ensures
        0 <= r * w + c < w * h,
{
    assert(0 <= r * w + c < w * h) by (nonlinear_arith)
        requires
            0 <= r < h,
            0 <= c < w,
    ;
}

/// Every index of the buffer is the index of an in-bounds cell.
pub proof fn lemma_index_join(w: int, h: int, k: int)
    requires
        0 < w,
        0 <= k < w * h,
    ensures
        0 <= k / w < h,
        0 <= k % w < w,
        (k / w) * w + k % w == k,
{
    vstd::arithmetic::div_mod::lemma_fundamental_div_mod(k, w);
    vstd::arithmetic::div_mod::lemma_mod_pos_bound(k, w);
    vstd::arithmetic::div_mod::lemma_div_pos_is_pos(k, w);
    vstd::arithmetic::mul::lemma_mul_is_commutative(k / w, w);
    if k / w >= h {
        assert((k / w) * w >= w * h) by (nonlinear_arith)
            requires
                k / w >= h,
                w > 0,
        ;
        assert(false);
    }
}

/// Two well-formed boards of one size that agree on every cell are equal.
pub proof fn lemma_board_ext(a: Board, b: Board)
    requires
        a.wf(),
        b.wf(),
        a.width == b.width,
        a.height == b.height,
        forall|r: int, c: int| a.in_bounds(r, c) ==> #[trigger] a.cell(r, c) == b.cell(r, c),
    ensures
        a == b,
{
    assert forall|k: int| 0 <= k < a.cells.len() implies a.cells[k] == b.cells[k] by {
        lemma_index_join(a.width, a.height, k);
        assert(a.cell(k / a.width, k % a.width) == b.cell(k / a.width, k % a.width));
    }
    assert(a.cells =~= b.cells);
}

/// The cell `(i, j)` after flipping a rectangle.
pub proof fn lemma_toggled_rect_cell(
    b: Board,
    min_r: int,
    max_r: int,
    min_c: int,
    max_c: int,
    i: int,
    j: int,
)
    requires
        b.wf(),
        b.in_bounds(i, j),
    ensures
        b.toggled_rect(min_r, max_r, min_c, max_c).wf(),
        b.toggled_rect(min_r, max_r, min_c, max_c).cell(i, j) == (if min_r <= i <= max_r && min_c
            <= j <= max_c {
            b.cell(i, j).flipped()
        } else {
            b.cell(i, j)
        }),
{
    lemma_index_bound(b.width, b.height, i, j);
    lemma_index_split(b.width, i, j);
}

/// The cell `(i, j)` of the next generation.
pub proof fn lemma_next_cell(b: Board, i: int, j: int)
    requires
        b.wf(),
        b.in_bounds(i, j),
    ensures
        b.next().wf(),
        b.next().cell(i, j) == b.next_cell(i, j),
{
    lemma_index_bound(b.width, b.height, i, j);
    lemma_index_split(b.width, i, j);
}

/// Every cell of a blank board is dead.
pub proof fn lemma_blank_cell(width: int, height: int, i: int, j: int)
    requires
        0 <= i < height,
        0 <= j < width,
    ensures
        Board::blank(width, height).wf(),
        Board::blank(width, height).cell(i, j) == CellState::Dead,
{
    lemma_index_bound(width, height, i, j);
    lemma_index_split(width, i, j);
}

/// Setting `(r, c)` changes that cell alone.
pub proof fn lemma_set_cell(b: Board, r: int, c: int, s: CellState, i: int, j: int)
    requires
        b.wf(),
        b.in_bounds(r, c),
        b.in_bounds(i, j),
    ensures
        b.set(r, c, s).wf(),
        b.set(r, c, s).cell(i, j) == (if i == r && j == c {
            s
        } else {
            b.cell(i, j)
        }),
{
    lemma_index_bound(b.width, b.height, r, c);
    lemma_index_bound(b.width, b.height, i, j);
    lemma_index_split(b.width, r, c);
    lemma_index_split(b.width, i, j);
}

/// A fixed-size board, stored as one buffer of `width * height` cells in row-major
/// order: cell `(row, col)` lives at index `row * width + col`.
pub struct Grid {
    width: usize,
    height: usize,
    cells: Vec<CellState>,
}

impl View for Grid {
    type V = Board;

    closed spec fn view(&self) -> Board {
        Board { width: self.width as int, height: self.height as int, cells: self.cells@ }
    }
}

impl Grid {
    #[verifier::type_invariant]
    spec fn inv(self) -> bool {
        &&& self@.wf()
        &&& self.width * self.height <= usize::MAX
    }

    /// A `width` by `height` board with every cell dead.
    pub fn new(width: usize, height: usize) -> (g: Grid)
        requires
            width > 0,
            height > 0,
            width * height <= usize::MAX,
        ensures
            g@ == Board::blank(width as int, height as int),
    {
        let cells = vec![CellState::Dead; width * height];
        let g = Grid { width, height, cells };
        assert(g@.cells =~= Board::blank(width as int, height as int).cells);
        g
    }

    /// The number of columns.
    pub fn width(&self) -> (r: usize)
        ensures
            r == self@.width,
            self@.wf(),
    {
        proof {
            use_type_invariant(self);
        }
        self.width
    }

    /// The number of rows.
    pub fn height(&self) -> (r: usize)
        ensures
            r == self@.height,
            self@.wf(),
    {
        proof {
            use_type_invariant(self);
        }
        self.height
    }

    /// The buffer index of the in-bounds cell `(row, col)`.
    fn get_index_from_coords(&self, row: usize, col: usize) -> (i: usize)
        requires
            self@.in_bounds(row as int, col as int),
        ensures
            i == row * self@.width + col,
            i < self@.cells.len(),
    {
        proof {
            use_type_invariant(self);
            lemma_index_bound(self.width as int, self.height as int, row as int, col as int);
        }
        row * self.width + col
    }

    /// The state of `(row, col)`, or `None` when it lies off the board.
    pub fn get(&self, row: usize, col: usize) -> (r: Option<&CellState>)
        ensures
            self@.wf(),
            match r {
                Some(s) => self@.get(row as int, col as int) == Some(*s),
                None => self@.get(row as int, col as int) is None,
            },
    {
        proof {
            use_type_invariant(self);
        }
        if row < self.height && col < self.width {
            let index = self.get_index_from_coords(row, col);
            Some(&self.cells[index])
        } else {
            None
        }
    }
    /// Whether the cell at offset `(dr, dc)` from `(row, col)` is on the board and alive.
    fn alive_at_offset(&self, row: usize, col: usize, dr: i8, dc: i8) -> (b: bool)
        requires
            self@.in_bounds(row as int, col as int),
            -1 <= dr <= 1,
            -1 <= dc <= 1,
        ensures
            b == self@.alive(row + dr, col + dc),
    {
        if (dr < 0 && row == 0) || (dc < 0 && col == 0) {
            return false;
        }
        let r = if dr < 0 {
            row - 1
        } else if dr > 0 {
            row + 1
        } else {
            row
        };
        let c = if dc < 0 {
            col - 1
        } else if dc > 0 {
            col + 1
        } else {
            col
        };
        match self.get(r, c) {
            Some(s) => *s == CellState::Alive,
            None => false,
        }
    }

    /// Counts the live cells among the eight around `(row, col)`; positions beyond
    /// the edges are not counted.
    fn count_live_neighbors(&self, row: usize, col: usize) -> (n: usize)
        requires
            self@.in_bounds(row as int, col as int),
        ensures
            n == self@.live_neighbors(row as int, col as int),
    {
        let mut n: usize = 0;
        if self.alive_at_offset(row, col, -1, -1) {
            n += 1;
        }
        if self.alive_at_offset(row, col, -1, 0) {
            n += 1;
        }
        if self.alive_at_offset(row, col, -1, 1) {
            n += 1;
        }
        if self.alive_at_offset(row, col, 0, -1) {
            n += 1;
        }
        if self.alive_at_offset(row, col, 0, 1) {
            n += 1;
        }
        if self.alive_at_offset(row, col, 1, -1) {
            n += 1;
        }
        if self.alive_at_offset(row, col, 1, 0) {
            n += 1;
        }
        if self.alive_at_offset(row, col, 1, 1) {
            n += 1;
        }
        n
    }

    /// The state of `(r, c)` in the next generation, by the Game of Life rule.
    fn find_new_cell_state(&self, r: usize, c: usize) -> (s: CellState)
        requires
            self@.in_bounds(r as int, c as int),
        ensures
            s == self@.next_cell(r as int, c as int),
    {
        // The cell is on the board by the precondition: reading it cannot fail.
        let cur_state = *self.get(r, c).unwrap();
        let live_neighbors = self.count_live_neighbors(r, c);
        match cur_state {
            CellState::Alive => if live_neighbors == 2 || live_neighbors == 3 {
                CellState::Alive
            } else {
                CellState::Dead
            },
            CellState::Dead => if live_neighbors == 3 {
                CellState::Alive
            } else {
                CellState::Dead
            },
        }
    }

    /// Sets `(row, col)` to `new_state`; does nothing when it lies off the board.
    pub fn set(&mut self, row: usize, col: usize, new_state: CellState)
        ensures
            final(self)@ == old(self)@.set(row as int, col as int, new_state),
    {
        proof {
            use_type_invariant(&*self);
        }
        if row < self.height && col < self.width {
            let index = self.get_index_from_coords(row, col);
            self.cells[index] = new_state;
        }
    }

    /// Flips `(row, col)` between alive and dead; does nothing when it lies off the board.
    pub fn toggle_cell(&mut self, row: usize, col: usize)
        ensures
            final(self)@ == old(self)@.toggled(row as int, col as int),
    {
        if let Some(state) = self.get(row, col) {
            let flipped = state.toggle();
            self.set(row, col, flipped);
        }
    }

    /// Flips every cell of the inclusive rectangle `[min_r, max_r] x [min_c, max_c]`.
    /// A rectangle that hangs off the board is cut at the edge: flipping a position
    /// off the board would do nothing, so the loops stop at the last row and column.
    pub fn multi_toggle_cells(&mut self, min_r: usize, max_r: usize, min_c: usize, max_c: usize)
        ensures
            final(self)@ == old(self)@.toggled_rect(
                min_r as int,
                max_r as int,
                min_c as int,
                max_c as int,
            ),
    {
        proof {
            use_type_invariant(&*self);
        }
        let width = self.width;
        let height = self.height;
        let ghost start = self@;
        let mut r: usize = min_r;
        while r <= max_r && r < height
            invariant
                self@.wf(),
                start.wf(),
                self@.width == width && width == start.width,
                self@.height == height && height == start.height,
                min_r <= r,
                forall|i: int, j: int|
                    start.in_bounds(i, j) ==> #[trigger] self@.cell(i, j) == (if min_r <= i < r
                        && i <= max_r && min_c <= j <= max_c {
                        start.cell(i, j).flipped()
                    } else {
                        start.cell(i, j)
                    }),
            decreases height - r,
        {
            let mut c: usize = min_c;
            while c <= max_c && c < width
                invariant
                    self@.wf(),
                    start.wf(),
                    self@.width == width && width == start.width,
                    self@.height == height && height == start.height,
                    min_r <= r <= max_r,
                    r < height,
                    min_c <= c,
                    forall|i: int, j: int|
                        start.in_bounds(i, j) ==> #[trigger] self@.cell(i, j) == (if (min_r <= i
                            < r && i <= max_r && min_c <= j <= max_c) || (i == r && min_c <= j < c
                            && j <= max_c) {
                            start.cell(i, j).flipped()
                        } else {
                            start.cell(i, j)
                        }),
                decreases width - c,
            {
                let ghost before = self@;
                self.toggle_cell(r, c);
                proof {
                    use_type_invariant(&*self);
                    assert forall|i: int, j: int| start.in_bounds(i, j) implies #[trigger] self@.cell(
                        i,
                        j,
                    ) == (if i == r && j == c {
                        before.cell(i, j).flipped()
                    } else {
                        before.cell(i, j)
                    }) by {
                        lemma_set_cell(before, r as int, c as int, before.cell(r as int, c as int).flipped(), i, j);
                    }
                }
                c += 1;
            }
            r += 1;
        }
        proof {
            let rect = start.toggled_rect(min_r as int, max_r as int, min_c as int, max_c as int);
            assert forall|i: int, j: int| self@.in_bounds(i, j) implies #[trigger] self@.cell(i, j)
                == rect.cell(i, j) by {
                lemma_toggled_rect_cell(start, min_r as int, max_r as int, min_c as int, max_c as int, i, j);
            }
            lemma_toggled_rect_cell(start, min_r as int, max_r as int, min_c as int, max_c as int, 0, 0);
            lemma_board_ext(self@, rect);
        }
    }

    /// Sets every cell to dead; the dimensions stay.
    pub fn reset(&mut self)
        ensures
            final(self)@ == Board::blank(old(self)@.width, old(self)@.height),
    {
        proof {
            use_type_invariant(&*self);
        }
        self.cells = vec![CellState::Dead; self.width * self.height];
        assert(self@.cells =~= Board::blank(self.width as int, self.height as int).cells);
    }

    /// The board as text, one line per row from the top (see `Board::row_text`).
    pub fn render_lines(&self) -> (lines: Vec<String>)
        ensures
            lines@.len() == self@.height,
            forall|r: int| 0 <= r < self@.height ==> #[trigger] lines@[r]@ == self@.row_text(r),
    {
        proof {
            use_type_invariant(self);
        }
        let mut lines: Vec<String> = Vec::new();
        let mut row: usize = 0;
        while row < self.height
            invariant
                self@.wf(),
                row <= self@.height,
                lines@.len() == row,
                forall|r: int| 0 <= r < row ==> #[trigger] lines@[r]@ == self@.row_text(r),
            decreases self@.height - row,
        {
            let mut line = String::new();
            let mut col: usize = 0;
            while col < self.width
                invariant
                    self@.wf(),
                    row < self@.height,
                    col <= self@.width,
                    line@.len() == (if col == 0 {
                        0
                    } else {
                        2 * col - 1
                    }),
                    forall|k: int|
                        0 <= k < line@.len() ==> #[trigger] line@[k] == (if k % 2 == 1 {
                            ' '
                        } else {
                            glyph(self@.cell(row as int, k / 2))
                        }),
                decreases self@.width - col,
            {
                proof {
                    reveal_strlit("#");
                    reveal_strlit(".");
                    reveal_strlit(" ");
                }
                if col > 0 {
                    line.append(" ");
                }
                match self.get(row, col) {
                    Some(CellState::Alive) => line.append("#"),
                    _ => line.append("."),
                }
                col += 1;
            }
            assert(line@ =~= self@.row_text(row as int));
            lines.push(line);
            row += 1;
        }
        lines
    }

    /// Replaces the board by its next generation. Every new state is computed from
    /// the current board into a fresh buffer, which then takes the old one's place.
    pub fn next_generation(&mut self)
        ensures
            final(self)@ == old(self)@.next(),
    {
        proof {
            use_type_invariant(&*self);
        }
        let width = self.width;
        let height = self.height;
        let mut resulting_cells: Vec<CellState> = Vec::with_capacity(width * height);
        let mut row: usize = 0;
        while row < height
            invariant
                self@.wf(),
                width == self@.width,
                height == self@.height,
                row <= height,
                resulting_cells@.len() == row * width,
                forall|k: int|
                    0 <= k < resulting_cells@.len() ==> #[trigger] resulting_cells@[k]
                        == self@.next_cell(k / width as int, k % width as int),
            decreases height - row,
        {
            let mut col: usize = 0;
            while col < width
                invariant
                    self@.wf(),
                    width == self@.width,
                    height == self@.height,
                    row < height,
                    col <= width,
                    resulting_cells@.len() == row * width + col,
                    forall|k: int|
                        0 <= k < resulting_cells@.len() ==> #[trigger] resulting_cells@[k]
                            == self@.next_cell(k / width as int, k % width as int),
                decreases width - col,
            {
                proof {
                    lemma_index_split(width as int, row as int, col as int);
                }
                let s = self.find_new_cell_state(row, col);
                resulting_cells.push(s);
                col += 1;
            }
            assert(row * width + width == (row + 1) * width) by (nonlinear_arith);
            row += 1;
        }
        proof {
            vstd::arithmetic::mul::lemma_mul_is_commutative(height as int, width as int);
        }
        assert(resulting_cells@ =~= self@.next().cells);
        self.cells = resulting_cells;
    }
}

impl Default for Grid {
    /// A 128 by 80 board with every cell dead, a size that suits most terminals.
    fn default() -> (g: Grid)
        ensures
            g@ == Board::blank(128, 80),
    {
        Grid::new(128, 80)
    }
}

} // verus!
