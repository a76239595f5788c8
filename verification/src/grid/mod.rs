use vstd::prelude::*;
use crate::color::{default_bg, default_fg, spec_default_bg, spec_default_fg, Color};

pub mod csi;
pub mod sgr;

verus! {

/// One character cell of the grid: the character and its colours.
#[derive(Clone, Copy, PartialEq, Eq, Structural, Debug)]
pub struct Cell {
    pub c: char,
    pub fg: Color,
    pub bg: Color,
}

/// An empty cell: a space in the default colours.
pub open spec fn blank() -> Cell {
    Cell { c: ' ', fg: spec_default_fg(), bg: spec_default_bg() }
}

impl Default for Cell {
    fn default() -> (cell: Self)
        ensures
            cell == blank(),
    {
        Cell { c: ' ', fg: default_fg(), bg: default_bg() }
    }
}

/// A bound on the row and column counts that any allocation respects: a
/// cell, and the header of a row, each take at least 12 bytes, and no
/// allocation holds more than `isize::MAX` bytes, so neither count exceeds
/// `usize::MAX / 24`.
pub open spec fn dim_limit() -> int {
    usize::MAX as int / 24
}

/// The abstract state of a terminal grid.
pub struct GridState {
    pub cells: Seq<Seq<Cell>>,
    pub cursor_row: int,
    pub cursor_col: int,
    pub rows: int,
    pub cols: int,
    pub fg: Color,
    pub bg: Color,
    pub scroll_top: int,
    pub scroll_bottom: int,
    pub saved_cursor: (int, int),
    pub cursor_visible: bool,
}

/// A row of `cols` empty cells.
pub open spec fn blank_row(cols: int) -> Seq<Cell> {
    Seq::new(cols as nat, |i: int| blank())
}

/// `cells` after the scroll region `top..=bottom` moved up by `n >= 1` lines:
/// the lines that scroll in at the bottom of the region are empty. Where the
/// region is empty (`top > bottom`) only line `bottom` is cleared.
pub open spec fn scroll_up_rows(cells: Seq<Seq<Cell>>, top: int, bottom: int, n: int, cols: int) -> Seq<Seq<Cell>> {
    Seq::new(
        cells.len(),
        |r: int|
            if top <= r <= bottom {
                if r + n <= bottom {
                    cells[r + n]
                } else {
                    blank_row(cols)
                }
            } else if r == bottom {
                blank_row(cols)
            } else {
                cells[r]
            },
    )
}

/// `cells` after the scroll region `top..=bottom` moved down by `n >= 1`
/// lines: the lines that scroll in at the top of the region are empty. Where
/// the region is empty (`top > bottom`) only line `top` is cleared.
pub open spec fn scroll_down_rows(cells: Seq<Seq<Cell>>, top: int, bottom: int, n: int, cols: int) -> Seq<Seq<Cell>> {
    Seq::new(
        cells.len(),
        |r: int|
            if top <= r <= bottom {
                if r - n >= top {
                    cells[r - n]
                } else {
                    blank_row(cols)
                }
            } else if r == top {
                blank_row(cols)
            } else {
                cells[r]
            },
    )
}

impl GridState {
    /// The grid has `rows` lines of `cols` cells and a scroll region inside it.
    pub open spec fn frame_ok(self) -> bool {
        &&& 1 <= self.rows <= dim_limit()
        &&& 0 <= self.cols <= dim_limit()
        &&& self.cells.len() == self.rows
        &&& forall|r: int| 0 <= r < self.rows ==> #[trigger] self.cells[r].len() == self.cols
        &&& 0 <= self.scroll_top < self.rows
        &&& 0 <= self.scroll_bottom < self.rows
    }

    /// The shape and range facts that every reachable grid satisfies.
    pub open spec fn inv(self) -> bool {
        &&& self.frame_ok()
        &&& 0 <= self.cursor_row < self.rows
        &&& 0 <= self.cursor_col <= self.cols
        &&& 0 <= self.saved_cursor.0 < self.rows
        &&& 0 <= self.saved_cursor.1 <= self.cols
    }

    pub open spec fn with_cells(self, cells: Seq<Seq<Cell>>) -> GridState {
        GridState { cells, ..self }
    }

    pub open spec fn with_cursor(self, row: int, col: int) -> GridState {
        GridState { cursor_row: row, cursor_col: col, ..self }
    }

    /// The state after the scroll region moved up by `n` lines.
    pub open spec fn scrolled_up(self, n: int) -> GridState {
        self.with_cells(scroll_up_rows(self.cells, self.scroll_top, self.scroll_bottom, n, self.cols))
    }

    /// The state after the scroll region moved down by `n` lines.
    pub open spec fn scrolled_down(self, n: int) -> GridState {
        self.with_cells(scroll_down_rows(self.cells, self.scroll_top, self.scroll_bottom, n, self.cols))
    }
}

/// A fresh grid of `rows` by `cols` empty cells, cursor at the top left and
/// shown, default colours, the whole screen as scroll region.
pub open spec fn initial_state(rows: int, cols: int) -> GridState {
    GridState {
        cells: Seq::new(rows as nat, |r: int| blank_row(cols)),
        cursor_row: 0,
        cursor_col: 0,
        rows,
        cols,
        fg: spec_default_fg(),
        bg: spec_default_bg(),
        scroll_top: 0,
        scroll_bottom: rows - 1,
        saved_cursor: (0, 0),
        cursor_visible: true,
    }
}

/// Line feed: down one line; below the scroll region's bottom line the
/// region scrolls up instead and the cursor stays on that line.
pub open spec fn line_feed(g: GridState) -> GridState {
    if g.cursor_row + 1 > g.scroll_bottom {
        g.scrolled_up(1).with_cursor(g.scroll_bottom, g.cursor_col)
    } else {
        g.with_cursor(g.cursor_row + 1, g.cursor_col)
    }
}

/// Printing `c`: a pending wrap (cursor past the last column) first moves to
/// the start of the next line, scrolling if that leaves the scroll region;
/// then `c` is written in the current colours and the cursor advances.
pub open spec fn put_char_spec(g: GridState, c: char) -> GridState {
    let wrapped = g.cursor_col >= g.cols;
    let row1 = if wrapped { g.cursor_row + 1 } else { g.cursor_row };
    let col1 = if wrapped { 0 } else { g.cursor_col };
    let g1 = if row1 > g.scroll_bottom {
        g.scrolled_up(1).with_cursor(g.scroll_bottom, col1)
    } else {
        g.with_cursor(row1, col1)
    };
    if g1.cursor_row < g1.rows && g1.cursor_col < g1.cols {
        g1.with_cells(
            g1.cells.update(
                g1.cursor_row,
                g1.cells[g1.cursor_row].update(g1.cursor_col, Cell { c, fg: g.fg, bg: g.bg }),
            ),
        ).with_cursor(g1.cursor_row, g1.cursor_col + 1)
    } else {
        g1
    }
}

/// Tab stop after column `col`: the next multiple of 8, at most the last column.
pub open spec fn tab_stop(col: int, cols: int) -> int {
    let t = (col / 8 + 1) * 8;
    if t >= cols {
        cols - 1
    } else {
        t
    }
}

/// The effect of the C0 control byte `byte`: backspace, tab, line feed
/// (also vertical tab and form feed), carriage return; others are ignored.
pub open spec fn execute_spec(g: GridState, byte: u8) -> GridState {
    if byte == 0x08 {
        g.with_cursor(g.cursor_row, if g.cursor_col >= 1 { g.cursor_col - 1 } else { 0 })
    } else if byte == 0x09 {
        g.with_cursor(g.cursor_row, tab_stop(g.cursor_col, g.cols))
    } else if byte == 0x0A || byte == 0x0B || byte == 0x0C {
        line_feed(g)
    } else if byte == 0x0D {
        g.with_cursor(g.cursor_row, 0)
    } else {
        g
    }
}

/// The effect of the escape sequence with final byte `byte`: reverse index
/// (`M`), save cursor (`7`) and restore cursor (`8`); others are ignored.
pub open spec fn esc_spec(g: GridState, byte: u8) -> GridState {
    if byte == 0x4D {
        if g.cursor_row == g.scroll_top {
            g.scrolled_down(1)
        } else {
            g.with_cursor(if g.cursor_row >= 1 { g.cursor_row - 1 } else { 0 }, g.cursor_col)
        }
    } else if byte == 0x37 {
        GridState { saved_cursor: (g.cursor_row, g.cursor_col), ..g }
    } else if byte == 0x38 {
        g.with_cursor(g.saved_cursor.0, g.saved_cursor.1)
    } else {
        g
    }
}

/// The character grid of a terminal, with its cursor, current colours and
/// scroll region, driven by the actions of an ANSI/VT parser.
pub struct TerminalGrid {
    pub cells: Vec<Vec<Cell>>,
    pub cursor_row: usize,
    pub cursor_col: usize,
    pub rows: usize,
    pub cols: usize,
    pub cursor_visible: bool,
    pub fg: Color,
    pub bg: Color,
    pub scroll_top: usize,
    pub scroll_bottom: usize,
    pub saved_cursor: (usize, usize),
}

impl View for TerminalGrid {
    type V = GridState;

    open spec fn view(&self) -> GridState {
        GridState {
            cells: self.cells@.map_values(|row: Vec<Cell>| row@),
            cursor_row: self.cursor_row as int,
            cursor_col: self.cursor_col as int,
            rows: self.rows as int,
            cols: self.cols as int,
            fg: self.fg,
            bg: self.bg,
            scroll_top: self.scroll_top as int,
            scroll_bottom: self.scroll_bottom as int,
            saved_cursor: (self.saved_cursor.0 as int, self.saved_cursor.1 as int),
            cursor_visible: self.cursor_visible,
        }
    }
}

fn blank_row_exec(cols: usize) -> (row: Vec<Cell>)
    ensures
        row@ == blank_row(cols as int),
{
    let mut row: Vec<Cell> = Vec::new();
    let mut i: usize = 0;
    while i < cols
        invariant
            i <= cols,
            row@ == blank_row(i as int),
        decreases cols - i,
    {
        row.push(Cell::default());
        i = i + 1;
        assert(row@ =~= blank_row(i as int));
    }
    row
}

impl TerminalGrid {
    /// The grid is in a reachable state.
    pub open spec fn wf(&self) -> bool {
        self@.inv()
    }

    /// A grid of `rows` by `cols` empty cells with the cursor at the top left.
    pub fn new(rows: usize, cols: usize) -> (g: Self)
        requires
            1 <= rows <= dim_limit(),
            cols <= dim_limit(),
        ensures
            g.wf(),
            g@ == initial_state(rows as int, cols as int),
    {
        let mut cells: Vec<Vec<Cell>> = Vec::new();
        let mut r: usize = 0;
        while r < rows
            invariant
                r <= rows,
                cells@.len() == r,
                forall|i: int| 0 <= i < r ==> #[trigger] cells@[i]@ == blank_row(cols as int),
            decreases rows - r,
        {
            cells.push(blank_row_exec(cols));
            r = r + 1;
        }
        let g = TerminalGrid {
            cells,
            cursor_row: 0,
            cursor_col: 0,
            rows,
            cols,
            cursor_visible: true,
            fg: default_fg(),
            bg: default_bg(),
            scroll_top: 0,
            scroll_bottom: rows - 1,
            saved_cursor: (0, 0),
        };
        assert(g@.cells =~= initial_state(rows as int, cols as int).cells);
        g
    }

    /// Replaces row `r` by `row`.
    fn set_row(&mut self, r: usize, row: Vec<Cell>)
        requires
            r < old(self).cells@.len(),
        ensures
            final(self)@ == old(self)@.with_cells(old(self)@.cells.update(r as int, row@)),
    {
        self.cells.set(r, row);
        assert(self@.cells =~= old(self)@.cells.update(r as int, row@));
    }

    /// Writes `cell` at row `r`, column `c`.
    fn set_cell(&mut self, r: usize, c: usize, cell: Cell)
        requires
            r < old(self).cells@.len(),
            c < old(self).cells@[r as int]@.len(),
        ensures
            final(self)@ == old(self)@.with_cells(
                old(self)@.cells.update(r as int, old(self)@.cells[r as int].update(c as int, cell)),
            ),
    {
        let mut row: Vec<Cell> = Vec::new();
        self.cells.set_and_swap(r, &mut row);
        row.set(c, cell);
        self.set_row(r, row);
        assert(self@.cells =~= old(self)@.cells.update(r as int, old(self)@.cells[r as int].update(c as int, cell)));
    }

    /// Moves the scroll region up by one line, clearing its bottom line.
    fn scroll_up(&mut self)
        requires
            old(self)@.frame_ok(),
        ensures
            final(self)@ == old(self)@.scrolled_up(1),
            final(self)@.frame_ok(),
    {
        let empty = blank_row_exec(self.cols);
        if self.scroll_top <= self.scroll_bottom {
            let _ = self.cells.remove(self.scroll_top);
            self.cells.insert(self.scroll_bottom, empty);
        } else {
            self.cells.set(self.scroll_bottom, empty);
        }
        assert(self@.cells =~= old(self)@.scrolled_up(1).cells);
    }

    /// Moves the scroll region down by one line, clearing its top line.
    fn scroll_down(&mut self)
        requires
            old(self)@.frame_ok(),
        ensures
            final(self)@ == old(self)@.scrolled_down(1),
            final(self)@.frame_ok(),
    {
        let empty = blank_row_exec(self.cols);
        if self.scroll_top <= self.scroll_bottom {
            let _ = self.cells.remove(self.scroll_bottom);
            self.cells.insert(self.scroll_top, empty);
        } else {
            self.cells.set(self.scroll_top, empty);
        }
        assert(self@.cells =~= old(self)@.scrolled_down(1).cells);
    }
    /// Writes `c` at the cursor in the current colours and advances the
    /// cursor, wrapping to the next line (and scrolling) first if the cursor
    /// is past the last column.
    fn put_char(&mut self, c: char)
        requires
            old(self).wf(),
        ensures
            final(self).wf(),
            final(self)@ == put_char_spec(old(self)@, c),
            old(self).cols >= 1 ==> {
                &&& final(self).cursor_col >= 1
                &&& final(self)@.cells[final(self).cursor_row as int][final(self).cursor_col - 1]
                    == (Cell { c, fg: old(self).fg, bg: old(self).bg })
            },
    {
        if self.cursor_col >= self.cols {
            self.cursor_col = 0;
            self.cursor_row = self.cursor_row + 1;
        }
        if self.cursor_row > self.scroll_bottom {
            self.scroll_up();
            self.cursor_row = self.scroll_bottom;
        }
        if self.cursor_row < self.rows && self.cursor_col < self.cols {
            let cell = Cell { c, fg: self.fg, bg: self.bg };
            assert(self.cells@[self.cursor_row as int]@ == self@.cells[self.cursor_row as int]);
            self.set_cell(self.cursor_row, self.cursor_col, cell);
            self.cursor_col = self.cursor_col + 1;
        }
    }

    /// A printable character from the parser.
    pub fn print(&mut self, c: char)
        requires
            old(self).wf(),
        ensures
            final(self).wf(),
            final(self)@ == put_char_spec(old(self)@, c),
            old(self).cols >= 1 ==> {
                &&& final(self).cursor_col >= 1
                &&& final(self)@.cells[final(self).cursor_row as int][final(self).cursor_col - 1]
                    == (Cell { c, fg: old(self).fg, bg: old(self).bg })
            },
    {
        self.put_char(c);
    }

    /// A C0 control byte from the parser: backspace, tab, line feed (also
    /// vertical tab and form feed) and carriage return; others are ignored.
    pub fn execute(&mut self, byte: u8)
        requires
            old(self).wf(),
            byte == 0x09 ==> old(self).cols > 0,
        ensures
            final(self).wf(),
            final(self)@ == execute_spec(old(self)@, byte),
    {
        match byte {
            0x08 => {
                self.cursor_col = self.cursor_col.saturating_sub(1);
            },
            0x09 => {
                self.cursor_col = ((self.cursor_col / 8) + 1) * 8;
                if self.cursor_col >= self.cols {
                    self.cursor_col = self.cols - 1;
                }
            },
            0x0A | 0x0B | 0x0C => {
                self.cursor_row = self.cursor_row + 1;
                if self.cursor_row > self.scroll_bottom {
                    self.scroll_up();
                    self.cursor_row = self.scroll_bottom;
                }
            },
            0x0D => {
                self.cursor_col = 0;
            },
            _ => {},
        }
    }

    /// An escape sequence from the parser: reverse index (`ESC M`), save
    /// cursor (`ESC 7`) and restore cursor (`ESC 8`); others are ignored.
    /// The intermediate bytes and the `ignore` flag play no part.
    pub fn esc_dispatch(&mut self, intermediates: &[u8], ignore: bool, byte: u8)
        requires
            old(self).wf(),
        ensures
            final(self).wf(),
            final(self)@ == esc_spec(old(self)@, byte),
    {
        match byte {
            0x4D => {
                if self.cursor_row == self.scroll_top {
                    self.scroll_down();
                } else {
                    self.cursor_row = self.cursor_row.saturating_sub(1);
                }
            },
            0x37 => {
                self.saved_cursor = (self.cursor_row, self.cursor_col);
            },
            0x38 => {
                let (r, c) = self.saved_cursor;
                self.cursor_row = r;
                self.cursor_col = c;
            },
            _ => {},
        }
    }
}

} // verus!
