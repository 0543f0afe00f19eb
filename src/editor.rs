use crate::grid::{Board, CellState, Grid};
use vstd::prelude::*;

verus! {

/// The editing mode, in the manner of a modal text editor:
/// `Normal` moves the cursor and flips one cell, `Visual` selects a rectangle to
/// flip at once, `Running` plays the simulation and ignores edits.
#[derive(Copy, Clone, PartialEq, Eq, Structural, Debug)]
pub enum Mode {
    Running,
    Normal,
    Visual,
}

impl Mode {
    /// The mode's name as the title bar shows it.
    pub open spec fn label_text(self) -> Seq<char> {
        match self {
            Mode::Normal => "[NORMAL]"@,
            Mode::Running => "[RUNNING]"@,
            Mode::Visual => "[VISUAL]"@,
        }
    }

    /// The mode's name as the title bar shows it.
    pub fn label(&self) -> (s: &'static str)
        ensures
            s@ == self.label_text(),
    {
        match self {
            Mode::Normal => "[NORMAL]",
            Mode::Running => "[RUNNING]",
            Mode::Visual => "[VISUAL]",
        }
    }
}

impl Default for Mode {
    /// The editor starts in normal mode.
    fn default() -> (m: Mode)
        ensures
            m == Mode::Normal,
    {
        Mode::Normal
    }
}

/// A key press, as far as the editor tells keys apart.
#[derive(Copy, Clone, PartialEq, Eq, Structural, Debug)]
pub enum Key {
    Char(char),
    Enter,
    Esc,
    Left,
    Down,
    Up,
    Right,
    Other,
}

/// How the view paints one cell.
#[derive(Copy, Clone, PartialEq, Eq, Structural, Debug)]
pub enum CellStyle {
    /// The cell under the cursor, while editing.
    Cursor,
    /// A live cell inside the visual selection.
    SelectedAlive,
    /// A dead cell inside the visual selection.
    SelectedDead,
    /// Any other cell.
    Plain,
}

/// The bounding box `(min_row, max_row, min_col, max_col)` of two corners.
pub open spec fn span(a: (usize, usize), b: (usize, usize)) -> (usize, usize, usize, usize) {
    (
        if a.0 <= b.0 {
            a.0
        } else {
            b.0
        },
        if a.0 <= b.0 {
            b.0
        } else {
            a.0
        },
        if a.1 <= b.1 {
            a.1
        } else {
            b.1
        },
        if a.1 <= b.1 {
            b.1
        } else {
            a.1
        },
    )
}

/// The bounding box `(min_row, max_row, min_col, max_col)` of the rectangle whose
/// opposite corners are the cursor and the anchor.
pub fn get_row_and_col_span(cursor_r: usize, cursor_c: usize, anchor_r: usize, anchor_c: usize) -> (r:
    (usize, usize, usize, usize))
    ensures
        r == span((cursor_r, cursor_c), (anchor_r, anchor_c)),
{
    let min_r = if cursor_r <= anchor_r {
        cursor_r
    } else {
        anchor_r
    };
    let max_r = if cursor_r <= anchor_r {
        anchor_r
    } else {
        cursor_r
    };
    let min_c = if cursor_c <= anchor_c {
        cursor_c
    } else {
        anchor_c
    };
    let max_c = if cursor_c <= anchor_c {
        anchor_c
    } else {
        cursor_c
    };
    (min_r, max_r, min_c, max_c)
}

/// The mathematical model of the editor.
pub struct AppModel {
    pub grid: Board,
    pub cursor: (usize, usize),
    pub anchor: Option<(usize, usize)>,
    pub mode: Mode,
    pub exit: bool,
}

impl AppModel {
    /// The cursor, and the anchor if any, lie on the board.
    pub open spec fn cursor_ok(self) -> bool {
        &&& self.grid.in_bounds(self.cursor.0 as int, self.cursor.1 as int)
        &&& (self.anchor matches Some(a) ==> self.grid.in_bounds(a.0 as int, a.1 as int))
    }

    /// Whether the cursor may move and cells may be edited.
    pub open spec fn editing(self) -> bool {
        self.mode != Mode::Running
    }

    /// Whether `(r, c)` lies in the rectangle selected in visual mode.
    pub open spec fn in_selection(self, r: usize, c: usize) -> bool {
        self.mode == Mode::Visual && match self.anchor {
            Some(a) => {
                let (min_r, max_r, min_c, max_c) = span(self.cursor, a);
                min_r <= r <= max_r && min_c <= c <= max_c
            },
            None => false,
        }
    }

    /// How the view paints `(r, c)`.
    pub open spec fn style_of(self, r: usize, c: usize) -> CellStyle {
        if (r, c) == self.cursor && self.editing() {
            CellStyle::Cursor
        } else if self.in_selection(r, c) {
            if self.grid.get(r as int, c as int) == Some(CellState::Alive) {
                CellStyle::SelectedAlive
            } else {
                CellStyle::SelectedDead
            }
        } else {
            CellStyle::Plain
        }
    }

    /// The space bar: flips the cell under the cursor in normal mode, flips the
    /// selection and returns to normal mode in visual mode, does nothing while running.
    pub open spec fn after_space(self) -> AppModel {
        match self.mode {
            Mode::Normal => AppModel {
                grid: self.grid.toggled(self.cursor.0 as int, self.cursor.1 as int),
                ..self
            },
            Mode::Visual => {
                let grid = match self.anchor {
                    Some(a) => {
                        let (min_r, max_r, min_c, max_c) = span(self.cursor, a);
                        self.grid.toggled_rect(min_r as int, max_r as int, min_c as int, max_c as int)
                    },
                    None => self.grid,
                };
                AppModel { grid, mode: Mode::Normal, anchor: None, ..self }
            },
            Mode::Running => self,
        }
    }

    /// The editor after the key `key` is pressed.
    pub open spec fn after_key(self, key: Key) -> AppModel {
        let (row, col) = self.cursor;
        if key == Key::Char('q') {
            AppModel { exit: true, ..self }
        } else if key == Key::Enter {
            AppModel {
                mode: if self.mode == Mode::Running {
                    Mode::Normal
                } else {
                    Mode::Running
                },
                ..self
            }
        } else if key == Key::Esc {
            AppModel { mode: Mode::Normal, anchor: None, ..self }
        } else if key == Key::Char('v') && self.editing() {
            AppModel { mode: Mode::Visual, anchor: Some(self.cursor), ..self }
        } else if (key == Key::Left || key == Key::Char('h')) && self.editing() {
            AppModel {
                cursor: (
                    row,
                    if col > 0 {
                        (col - 1) as usize
                    } else {
                        col
                    },
                ),
                ..self
            }
        } else if (key == Key::Down || key == Key::Char('j')) && self.editing() {
            AppModel {
                cursor: (
                    if row + 1 < self.grid.height {
                        (row + 1) as usize
                    } else {
                        row
                    },
                    col,
                ),
                ..self
            }
        } else if (key == Key::Up || key == Key::Char('k')) && self.editing() {
            AppModel {
                cursor: (
                    if row > 0 {
                        (row - 1) as usize
                    } else {
                        row
                    },
                    col,
                ),
                ..self
            }
        } else if (key == Key::Right || key == Key::Char('l')) && self.editing() {
            AppModel {
                cursor: (
                    row,
                    if col + 1 < self.grid.width {
                        (col + 1) as usize
                    } else {
                        col
                    },
                ),
                ..self
            }
        } else if key == Key::Char('r') {
            if self.editing() {
                AppModel { grid: Board::blank(self.grid.width, self.grid.height), ..self }
            } else {
                self
            }
        } else if key == Key::Char(' ') {
            self.after_space()
        } else {
            self
        }
    }

    /// The editor after one tick of the clock: a generation passes while running.
    pub open spec fn after_tick(self) -> AppModel {
        if self.mode == Mode::Running {
            AppModel { grid: self.grid.next(), ..self }
        } else {
            self
        }
    }
}

/// The editor: a board, a cursor on it, the anchor of a visual selection, the mode,
/// and whether the user asked to quit.
pub struct App {
    grid: Grid,
    cursor_pos: (usize, usize),
    selection_anchor: Option<(usize, usize)>,
    mode: Mode,
    exit: bool,
}

impl View for App {
    type V = AppModel;

    closed spec fn view(&self) -> AppModel {
        AppModel {
            grid: self.grid@,
            cursor: self.cursor_pos,
            anchor: self.selection_anchor,
            mode: self.mode,
            exit: self.exit,
        }
    }
}

impl Default for App {
    /// A default-sized dead board, the cursor at the top left, normal mode.
    fn default() -> (a: App)
        ensures
            a@ == (AppModel {
                grid: Board::blank(128, 80),
                cursor: (0, 0),
                anchor: None,
                mode: Mode::Normal,
                exit: false,
            }),
    {
        App {
            grid: Grid::default(),
            cursor_pos: (0, 0),
            selection_anchor: None,
            mode: Mode::Normal,
            exit: false,
        }
    }
}

impl App {
    /// The board.
    pub fn grid(&self) -> (g: &Grid)
        ensures
            g@ == self@.grid,
    {
        &self.grid
    }

    /// The cursor's `(row, col)`.
    pub fn cursor_pos(&self) -> (p: (usize, usize))
        ensures
            p == self@.cursor,
    {
        self.cursor_pos
    }

    /// The corner where the visual selection started, if one is under way.
    pub fn selection_anchor(&self) -> (a: Option<(usize, usize)>)
        ensures
            a == self@.anchor,
    {
        self.selection_anchor
    }

    /// The current mode.
    pub fn mode(&self) -> (m: Mode)
        ensures
            m == self@.mode,
    {
        self.mode
    }

    /// Whether the user asked to quit.
    pub fn should_exit(&self) -> (b: bool)
        ensures
            b == self@.exit,
    {
        self.exit
    }

    /// Asks the main loop to stop.
    pub fn exit(&mut self)
        ensures
            final(self)@ == (AppModel { exit: true, ..old(self)@ }),
    {
        self.exit = true;
    }

    /// One tick of the clock: advances the board by a generation while running.
    pub fn tick(&mut self)
        ensures
            final(self)@ == old(self)@.after_tick(),
    {
        if self.mode == Mode::Running {
            self.grid.next_generation();
        }
    }

    /// Whether `(r, c)` lies in the rectangle selected in visual mode.
    pub fn in_selection(&self, r: usize, c: usize) -> (b: bool)
        ensures
            b == self@.in_selection(r, c),
    {
        if self.mode == Mode::Visual {
            match self.selection_anchor {
                Some((anchor_r, anchor_c)) => {
                    let (cursor_r, cursor_c) = self.cursor_pos;
                    let (min_r, max_r, min_c, max_c) = get_row_and_col_span(
                        cursor_r,
                        cursor_c,
                        anchor_r,
                        anchor_c,
                    );
                    r >= min_r && r <= max_r && c >= min_c && c <= max_c
                },
                None => false,
            }
        } else {
            false
        }
    }

    /// How the view paints `(r, c)`: the cursor first, then the selection.
    pub fn cell_style(&self, r: usize, c: usize) -> (s: CellStyle)
        ensures
            s == self@.style_of(r, c),
    {
        if r == self.cursor_pos.0 && c == self.cursor_pos.1 && self.mode != Mode::Running {
            CellStyle::Cursor
        } else if self.in_selection(r, c) {
            match self.grid.get(r, c) {
                Some(CellState::Alive) => CellStyle::SelectedAlive,
                _ => CellStyle::SelectedDead,
            }
        } else {
            CellStyle::Plain
        }
    }

    /// Acts on one key press.
    pub fn handle_key_event(&mut self, key: Key)
        ensures
            final(self)@ == old(self)@.after_key(key),
    {
        let (row, col) = self.cursor_pos;
        let editing = self.mode != Mode::Running;
        match key {
            Key::Char('q') => self.exit(),
            Key::Enter => {
                if self.mode == Mode::Running {
                    self.mode = Mode::Normal;
                } else {
                    self.mode = Mode::Running;
                }
            },
            Key::Esc => {
                self.mode = Mode::Normal;
                self.selection_anchor = None;
            },
            Key::Char('v') => {
                if editing {
                    self.mode = Mode::Visual;
                    self.selection_anchor = Some((row, col));
                }
            },
            Key::Left | Key::Char('h') => {
                if editing && col > 0 {
                    self.cursor_pos.1 = col - 1;
                }
            },
            Key::Down | Key::Char('j') => {
                if editing && row < self.grid.height() - 1 {
                    self.cursor_pos.0 = row + 1;
                }
            },
            Key::Up | Key::Char('k') => {
                if editing && row > 0 {
                    self.cursor_pos.0 = row - 1;
                }
            },
            Key::Right | Key::Char('l') => {
                if editing && col < self.grid.width() - 1 {
                    self.cursor_pos.1 = col + 1;
                }
            },
            Key::Char('r') => {
                if editing {
                    self.grid.reset();
                }
            },
            Key::Char(' ') => match self.mode {
                Mode::Normal => {
                    self.grid.toggle_cell(row, col);
                },
                Mode::Visual => {
                    if let Some((anchor_r, anchor_c)) = self.selection_anchor {
                        let (min_r, max_r, min_c, max_c) = get_row_and_col_span(
                            row,
                            col,
                            anchor_r,
                            anchor_c,
                        );
                        self.grid.multi_toggle_cells(min_r, max_r, min_c, max_c);
                    }
                    self.mode = Mode::Normal;
                    self.selection_anchor = None;
                },
                Mode::Running => {},
            },
            _ => {},
        }
    }
}

} // verus!
