use vstd::prelude::*;
use crate::params::{groups_of, param_groups};
use super::sgr::{sgr_defined, sgr_is_defined, sgr_state};
use super::{blank, blank_row, blank_row_exec, Cell, GridState, TerminalGrid};

verus! {

/// The first parameter, or `d` when there is none.
pub open spec fn first_or(ps: Seq<u16>, d: int) -> int {
    if ps.len() > 0 {
        ps[0] as int
    } else {
        d
    }
}

/// The second parameter, or `d` when there is none.
pub open spec fn second_or(ps: Seq<u16>, d: int) -> int {
    if ps.len() > 1 {
        ps[1] as int
    } else {
        d
    }
}

/// `v`, or 1 where `v` is 0.
pub open spec fn at_least_one(v: int) -> int {
    if v >= 1 {
        v
    } else {
        1
    }
}

/// The repeat count of a sequence: its first parameter, 1 if absent or 0.
pub open spec fn count_param(ps: Seq<u16>) -> int {
    at_least_one(first_or(ps, 1))
}

pub open spec fn min_int(a: int, b: int) -> int {
    if a <= b {
        a
    } else {
        b
    }
}

/// `a - b`, or 0 where that is negative.
pub open spec fn sat_sub(a: int, b: int) -> int {
    if a >= b {
        a - b
    } else {
        0
    }
}

/// `row` with the cells of columns `from..to` emptied.
pub open spec fn blank_span(row: Seq<Cell>, from: int, to: int) -> Seq<Cell> {
    Seq::new(row.len(), |c: int| if from <= c < to { blank() } else { row[c] })
}

/// `cells` with the lines `from..to` emptied.
pub open spec fn blank_lines(cells: Seq<Seq<Cell>>, from: int, to: int, cols: int) -> Seq<Seq<Cell>> {
    Seq::new(cells.len(), |r: int| if from <= r < to { blank_row(cols) } else { cells[r] })
}

/// `cells` with `n` empty lines inserted at line `at`, within the region
/// `at..=bottom`: the lines below move down and those pushed past `bottom`
/// are lost.
pub open spec fn insert_lines_rows(cells: Seq<Seq<Cell>>, at: int, bottom: int, n: int, cols: int) -> Seq<Seq<Cell>> {
    Seq::new(
        cells.len(),
        |r: int|
            if at <= r <= bottom {
                if r < at + n {
                    blank_row(cols)
                } else {
                    cells[r - n]
                }
            } else {
                cells[r]
            },
    )
}

/// `cells` with `n` lines deleted at line `at`, within the region
/// `at..=bottom`: the lines below move up and empty lines enter at `bottom`.
pub open spec fn delete_lines_rows(cells: Seq<Seq<Cell>>, at: int, bottom: int, n: int, cols: int) -> Seq<Seq<Cell>> {
    Seq::new(
        cells.len(),
        |r: int|
            if at <= r <= bottom {
                if r + n <= bottom {
                    cells[r + n]
                } else {
                    blank_row(cols)
                }
            } else {
                cells[r]
            },
    )
}

/// `row` with `n` cells deleted at column `at`: the cells to the right move
/// left and empty cells enter at the end.
pub open spec fn delete_chars_row(row: Seq<Cell>, at: int, n: int) -> Seq<Cell> {
    Seq::new(
        row.len(),
        |c: int|
            if c < at {
                row[c]
            } else if c + n < row.len() {
                row[c + n]
            } else {
                blank()
            },
    )
}

/// `row` with `n` empty cells inserted at column `at`: the cells to the
/// right move right and those pushed past the end are lost.
pub open spec fn insert_chars_row(row: Seq<Cell>, at: int, n: int) -> Seq<Cell> {
    Seq::new(
        row.len(),
        |c: int|
            if c < at {
                row[c]
            } else if c < at + n {
                blank()
            } else {
                row[c - n]
            },
    )
}

/// Erase in display (`CSI J`): mode 0 from the cursor to the end of the
/// screen, 1 from the start of the screen to the cursor, 2 and 3 all of it.
pub open spec fn erase_display(g: GridState, mode: int) -> GridState {
    let row = g.cursor_row;
    if mode == 0 {
        g.with_cells(
            blank_lines(g.cells, row + 1, g.rows, g.cols).update(
                row,
                blank_span(g.cells[row], g.cursor_col, g.cols),
            ),
        )
    } else if mode == 1 {
        g.with_cells(
            blank_lines(g.cells, 0, row, g.cols).update(
                row,
                blank_span(g.cells[row], 0, min_int(g.cursor_col, g.cols - 1) + 1),
            ),
        )
    } else if mode == 2 || mode == 3 {
        g.with_cells(blank_lines(g.cells, 0, g.rows, g.cols))
    } else {
        g
    }
}

/// Erase in line (`CSI K`): mode 0 from the cursor to the end of the line,
/// 1 from the start of the line to the cursor, 2 the whole line.
pub open spec fn erase_line(g: GridState, mode: int) -> GridState {
    let row = g.cursor_row;
    if mode == 0 {
        g.with_cells(g.cells.update(row, blank_span(g.cells[row], g.cursor_col, g.cols)))
    } else if mode == 1 {
        g.with_cells(g.cells.update(row, blank_span(g.cells[row], 0, min_int(g.cursor_col, g.cols - 1) + 1)))
    } else if mode == 2 {
        g.with_cells(g.cells.update(row, blank_row(g.cols)))
    } else {
        g
    }
}

/// The effect of a control sequence without intermediate bytes, with
/// parameters `ps` and final character `action`.
pub open spec fn csi_plain(g: GridState, ps: Seq<u16>, action: char) -> GridState {
    let n = count_param(ps);
    let row = g.cursor_row;
    let col = g.cursor_col;
    if action == 'A' {
        g.with_cursor(sat_sub(row, n), col)
    } else if action == 'B' {
        g.with_cursor(min_int(row + n, g.rows - 1), col)
    } else if action == 'C' {
        g.with_cursor(row, min_int(col + n, g.cols - 1))
    } else if action == 'D' {
        g.with_cursor(row, sat_sub(col, n))
    } else if action == 'H' || action == 'f' {
        g.with_cursor(min_int(n - 1, g.rows - 1), min_int(at_least_one(second_or(ps, 1)) - 1, g.cols - 1))
    } else if action == 'J' {
        erase_display(g, first_or(ps, 0))
    } else if action == 'K' {
        erase_line(g, first_or(ps, 0))
    } else if action == 'm' {
        sgr_state(g, ps)
    } else if action == 'r' {
        let bot = at_least_one(second_or(ps, (g.rows as u16) as int)) - 1;
        GridState {
            scroll_top: min_int(n - 1, g.rows - 1),
            scroll_bottom: min_int(bot, g.rows - 1),
            cursor_row: 0,
            cursor_col: 0,
            ..g
        }
    } else if action == 'L' {
        if row <= g.scroll_bottom {
            g.with_cells(insert_lines_rows(g.cells, row, g.scroll_bottom, n, g.cols))
        } else {
            g
        }
    } else if action == 'M' {
        if row <= g.scroll_bottom {
            g.with_cells(delete_lines_rows(g.cells, row, g.scroll_bottom, n, g.cols))
        } else {
            g
        }
    } else if action == 'P' {
        if col < g.cols {
            g.with_cells(g.cells.update(row, delete_chars_row(g.cells[row], col, n)))
        } else {
            g
        }
    } else if action == '@' {
        if col < g.cols {
            g.with_cells(g.cells.update(row, insert_chars_row(g.cells[row], col, n)))
        } else {
            g
        }
    } else if action == 'd' {
        g.with_cursor(min_int(n - 1, g.rows - 1), col)
    } else if action == 'G' {
        g.with_cursor(row, min_int(n - 1, g.cols - 1))
    } else if action == 'X' {
        g.with_cells(g.cells.update(row, blank_span(g.cells[row], col, min_int(col + n, g.cols))))
    } else if action == 'S' {
        g.scrolled_up(n)
    } else if action == 'T' {
        g.scrolled_down(n)
    } else if action == 's' {
        GridState { saved_cursor: (row, col), ..g }
    } else if action == 'u' {
        g.with_cursor(g.saved_cursor.0, g.saved_cursor.1)
    } else {
        g
    }
}

/// The intermediate bytes are exactly `?` (a private-mode sequence).
pub open spec fn is_private(intermediates: Seq<u8>) -> bool {
    intermediates.len() == 1 && intermediates[0] == 0x3F
}

/// The effect of the control sequence with parameters `ps`, intermediate
/// bytes `intermediates` and final character `action`: private mode 25
/// (`CSI ? 25 h` / `l`) shows or hides the cursor, other private-mode and
/// intermediate-byte sequences are ignored, the rest is `csi_plain`.
pub open spec fn csi_spec(g: GridState, ps: Seq<u16>, intermediates: Seq<u8>, action: char) -> GridState {
    if is_private(intermediates) {
        if (action == 'h' || action == 'l') && ps.contains(25) {
            GridState { cursor_visible: action == 'h', ..g }
        } else {
            g
        }
    } else if intermediates.len() != 0 {
        g
    } else {
        csi_plain(g, ps, action)
    }
}

/// The control sequence is defined on `g`: the sequences that move to or
/// erase up to the last column need a column, and SGR needs its palette
/// indices to be defined.
pub open spec fn csi_defined(g: GridState, ps: Seq<u16>, intermediates: Seq<u8>, action: char) -> bool {
    !is_private(intermediates) && intermediates.len() == 0 ==> {
        &&& (action == 'C' || action == 'H' || action == 'f' || action == 'G') ==> g.cols > 0
        &&& (action == 'J' || action == 'K') && first_or(ps, 0) == 1 ==> g.cols > 0
        &&& action == 'm' ==> sgr_defined(ps)
    }
}

/// The values held by each of `groups`.
pub open spec fn groups_view(groups: Seq<Vec<u16>>) -> Seq<Seq<u16>> {
    groups.map_values(|grp: Vec<u16>| grp@)
}

/// The first value of each parameter group.
pub open spec fn firsts(groups: Seq<Seq<u16>>) -> Seq<u16> {
    groups.map_values(|grp: Seq<u16>| grp[0])
}

/// Every parameter group holds at least one value.
pub open spec fn all_nonempty(groups: Seq<Seq<u16>>) -> bool {
    forall|i: int| 0 <= i < groups.len() ==> #[trigger] groups[i].len() > 0
}

/// Dispatching the control sequence with parameter groups `groups` is
/// defined: it is ignored for its intermediate bytes, or each group has a
/// first value and the sequence on those values is defined.
pub open spec fn dispatch_defined(g: GridState, groups: Seq<Seq<u16>>, intermediates: Seq<u8>, action: char) -> bool {
    ||| !is_private(intermediates) && intermediates.len() != 0
    ||| all_nonempty(groups) && csi_defined(g, firsts(groups), intermediates, action)
}

impl TerminalGrid {
    /// Takes row `r` out of the grid, leaving an empty row in its place.
    fn take_row(&mut self, r: usize) -> (row: Vec<Cell>)
        requires
            r < old(self).cells@.len(),
        ensures
            row@ == old(self)@.cells[r as int],
            final(self)@ == old(self)@.with_cells(old(self)@.cells.update(r as int, Seq::empty())),
            final(self).cells@.len() == old(self).cells@.len(),
    {
        let mut row: Vec<Cell> = Vec::new();
        self.cells.set_and_swap(r, &mut row);
        assert(self@.cells =~= old(self)@.cells.update(r as int, Seq::empty()));
        row
    }

    /// Empties the cells of columns `from..to` of row `r`.
    fn blank_cells(&mut self, r: usize, from: usize, to: usize)
        requires
            old(self)@.frame_ok(),
            r < old(self)@.rows,
            from <= to <= old(self)@.cols,
        ensures
            final(self)@ == old(self)@.with_cells(
                old(self)@.cells.update(r as int, blank_span(old(self)@.cells[r as int], from as int, to as int)),
            ),
    {
        let ghost orig = old(self)@.cells[r as int];
        assert(blank_span(orig, from as int, from as int) =~= orig);
        assert(old(self)@.cells.update(r as int, orig) =~= old(self)@.cells);
        let mut c = from;
        while c < to
            invariant
                from <= c <= to,
                to <= old(self)@.cols,
                r < old(self)@.rows,
                old(self)@.frame_ok(),
                orig == old(self)@.cells[r as int],
                self.cells@.len() == old(self)@.rows,
                self@ == old(self)@.with_cells(
                    old(self)@.cells.update(r as int, blank_span(orig, from as int, c as int)),
                ),
            decreases to - c,
        {
            assert(self.cells@[r as int]@ == self@.cells[r as int]);
            assert(blank_span(orig, from as int, c as int).update(c as int, blank()) =~= blank_span(
                orig,
                from as int,
                c + 1,
            ));
            self.set_cell(r, c, Cell::default());
            c = c + 1;
            assert(self@.cells =~= old(self)@.cells.update(r as int, blank_span(orig, from as int, c as int)));
        }
    }

    /// Empties the lines `from..to`.
    fn blank_rows(&mut self, from: usize, to: usize)
        requires
            old(self)@.frame_ok(),
            from <= to <= old(self)@.rows,
        ensures
            final(self)@ == old(self)@.with_cells(
                blank_lines(old(self)@.cells, from as int, to as int, old(self)@.cols),
            ),
    {
        let mut r = from;
        assert(blank_lines(old(self)@.cells, from as int, from as int, old(self)@.cols) =~= old(self)@.cells);
        while r < to
            invariant
                from <= r <= to,
                to <= old(self)@.rows,
                old(self)@.frame_ok(),
                self.cols == old(self).cols,
                self.cells@.len() == old(self)@.rows,
                self@ == old(self)@.with_cells(
                    blank_lines(old(self)@.cells, from as int, r as int, old(self)@.cols),
                ),
            decreases to - r,
        {
            let empty = blank_row_exec(self.cols);
            self.set_row(r, empty);
            r = r + 1;
            assert(self@.cells =~= blank_lines(old(self)@.cells, from as int, r as int, old(self)@.cols));
        }
    }

    /// Inserts `n` empty lines at the cursor line, within the scroll region.
    fn insert_lines(&mut self, n: usize)
        requires
            old(self)@.frame_ok(),
            old(self)@.cursor_row <= old(self)@.scroll_bottom,
        ensures
            final(self)@ == old(self)@.with_cells(
                insert_lines_rows(old(self)@.cells, old(self)@.cursor_row, old(self)@.scroll_bottom, n as int, old(self)@.cols),
            ),
    {
        let ghost g = old(self)@;
        let mut k: usize = 0;
        assert(g.cells =~= insert_lines_rows(g.cells, g.cursor_row, g.scroll_bottom, 0, g.cols));
        while k < n
            invariant
                k <= n,
                g == old(self)@,
                g.frame_ok(),
                g.cursor_row <= g.scroll_bottom,
                self@ == g.with_cells(insert_lines_rows(g.cells, g.cursor_row, g.scroll_bottom, k as int, g.cols)),
                self.cells@.len() == g.rows,
            decreases n - k,
        {
            let empty = blank_row_exec(self.cols);
            let ghost prev = self.cells@;
            let ghost prev_view = self@.cells;
            let _ = self.cells.remove(self.scroll_bottom);
            self.cells.insert(self.cursor_row, empty);
            k = k + 1;
            let ghost target = insert_lines_rows(g.cells, g.cursor_row, g.scroll_bottom, k as int, g.cols);
            assert forall|i: int| 0 <= i < g.rows implies #[trigger] self@.cells[i] == target[i] by {
                if i < g.cursor_row || i > g.scroll_bottom {
                    assert(self.cells@[i] == prev[i]);
                    assert(prev_view[i] == prev[i]@);
                } else if i > g.cursor_row {
                    assert(self.cells@[i] == prev[i - 1]);
                    assert(prev_view[i - 1] == prev[i - 1]@);
                }
            }
            assert(self@.cells =~= target);
        }
    }

    /// Deletes `n` lines at the cursor line, within the scroll region.
    fn delete_lines(&mut self, n: usize)
        requires
            old(self)@.frame_ok(),
            old(self)@.cursor_row <= old(self)@.scroll_bottom,
        ensures
            final(self)@ == old(self)@.with_cells(
                delete_lines_rows(old(self)@.cells, old(self)@.cursor_row, old(self)@.scroll_bottom, n as int, old(self)@.cols),
            ),
    {
        let ghost g = old(self)@;
        let mut k: usize = 0;
        assert(g.cells =~= delete_lines_rows(g.cells, g.cursor_row, g.scroll_bottom, 0, g.cols));
        while k < n
            invariant
                k <= n,
                g == old(self)@,
                g.frame_ok(),
                g.cursor_row <= g.scroll_bottom,
                self@ == g.with_cells(delete_lines_rows(g.cells, g.cursor_row, g.scroll_bottom, k as int, g.cols)),
                self.cells@.len() == g.rows,
            decreases n - k,
        {
            let empty = blank_row_exec(self.cols);
            let ghost prev = self.cells@;
            let ghost prev_view = self@.cells;
            let _ = self.cells.remove(self.cursor_row);
            self.cells.insert(self.scroll_bottom, empty);
            k = k + 1;
            let ghost target = delete_lines_rows(g.cells, g.cursor_row, g.scroll_bottom, k as int, g.cols);
            assert forall|i: int| 0 <= i < g.rows implies #[trigger] self@.cells[i] == target[i] by {
                if i < g.cursor_row || i > g.scroll_bottom {
                    assert(self.cells@[i] == prev[i]);
                    assert(prev_view[i] == prev[i]@);
                } else if i < g.scroll_bottom {
                    assert(self.cells@[i] == prev[i + 1]);
                    assert(prev_view[i + 1] == prev[i + 1]@);
                }
            }
            assert(self@.cells =~= target);
        }
    }

    /// Deletes `n` cells at the cursor, in the cursor line.
    fn delete_chars(&mut self, n: usize)
        requires
            old(self)@.frame_ok(),
            old(self)@.cursor_row < old(self)@.rows,
            old(self)@.cursor_col < old(self)@.cols,
        ensures
            final(self)@ == old(self)@.with_cells(
                old(self)@.cells.update(
                    old(self)@.cursor_row,
                    delete_chars_row(old(self)@.cells[old(self)@.cursor_row], old(self)@.cursor_col, n as int),
                ),
            ),
    {
        let ghost g = old(self)@;
        let r = self.cursor_row;
        let col = self.cursor_col;
        let mut row = self.take_row(r);
        let ghost orig = row@;
        let mut k: usize = 0;
        assert(orig =~= delete_chars_row(orig, col as int, 0));
        while k < n
            invariant
                k <= n,
                col < orig.len(),
                row@ == delete_chars_row(orig, col as int, k as int),
                g == old(self)@,
                g.frame_ok(),
                r == g.cursor_row,
                g.cursor_row < g.rows,
                col == g.cursor_col,
                orig == g.cells[r as int],
                self@ == g.with_cells(g.cells.update(r as int, Seq::empty())),
                self.cells@.len() == g.rows,
            decreases n - k,
        {
            let _ = row.remove(col);
            row.push(Cell::default());
            k = k + 1;
            assert(row@ =~= delete_chars_row(orig, col as int, k as int));
        }
        self.set_row(r, row);
        assert(self@.cells =~= g.cells.update(g.cursor_row, delete_chars_row(orig, col as int, n as int)));
    }

    /// Inserts `n` empty cells at the cursor, in the cursor line.
    fn insert_chars(&mut self, n: usize)
        requires
            old(self)@.frame_ok(),
            old(self)@.cursor_row < old(self)@.rows,
            old(self)@.cursor_col < old(self)@.cols,
        ensures
            final(self)@ == old(self)@.with_cells(
                old(self)@.cells.update(
                    old(self)@.cursor_row,
                    insert_chars_row(old(self)@.cells[old(self)@.cursor_row], old(self)@.cursor_col, n as int),
                ),
            ),
    {
        let ghost g = old(self)@;
        let r = self.cursor_row;
        let col = self.cursor_col;
        let cols = self.cols;
        let mut row = self.take_row(r);
        let ghost orig = row@;
        let mut k: usize = 0;
        assert(orig =~= insert_chars_row(orig, col as int, 0));
        while k < n
            invariant
                k <= n,
                col < orig.len(),
                orig.len() == cols,
                row@ == insert_chars_row(orig, col as int, k as int),
                g == old(self)@,
                g.frame_ok(),
                r == g.cursor_row,
                g.cursor_row < g.rows,
                col == g.cursor_col,
                orig == g.cells[r as int],
                self@ == g.with_cells(g.cells.update(r as int, Seq::empty())),
                self.cells@.len() == g.rows,
            decreases n - k,
        {
            row.insert(col, Cell::default());
            row.truncate(cols);
            k = k + 1;
            assert(row@ =~= insert_chars_row(orig, col as int, k as int));
        }
        self.set_row(r, row);
        assert(self@.cells =~= g.cells.update(g.cursor_row, insert_chars_row(orig, col as int, n as int)));
    }

    /// Moves the scroll region up by `n >= 1` lines.
    fn scroll_up_by(&mut self, n: usize)
        requires
            old(self)@.frame_ok(),
            n >= 1,
        ensures
            final(self)@ == old(self)@.scrolled_up(n as int),
            final(self)@.frame_ok(),
    {
        let ghost g = old(self)@;
        self.scroll_up();
        let mut k: usize = 1;
        while k < n
            invariant
                1 <= k <= n,
                g == old(self)@,
                g.frame_ok(),
                self@ == g.scrolled_up(k as int),
                self@.frame_ok(),
            decreases n - k,
        {
            self.scroll_up();
            k = k + 1;
            assert(self@.cells =~= g.scrolled_up(k as int).cells);
        }
    }

    /// Moves the scroll region down by `n >= 1` lines.
    fn scroll_down_by(&mut self, n: usize)
        requires
            old(self)@.frame_ok(),
            n >= 1,
        ensures
            final(self)@ == old(self)@.scrolled_down(n as int),
            final(self)@.frame_ok(),
    {
        let ghost g = old(self)@;
        self.scroll_down();
        let mut k: usize = 1;
        while k < n
            invariant
                1 <= k <= n,
                g == old(self)@,
                g.frame_ok(),
                self@ == g.scrolled_down(k as int),
                self@.frame_ok(),
            decreases n - k,
        {
            self.scroll_down();
            k = k + 1;
            assert(self@.cells =~= g.scrolled_down(k as int).cells);
        }
    }
}

impl TerminalGrid {
    /// Whether the control sequence with parameters `ps` is defined on this grid.
    pub fn csi_is_defined(&self, ps: &[u16], intermediates: &[u8], action: char) -> (ok: bool)
        ensures
            ok == csi_defined(self@, ps@, intermediates@, action),
    {
        let private = intermediates.len() == 1 && intermediates[0] == 0x3F;
        if private || intermediates.len() != 0 {
            return true;
        }
        let mode: u16 = if ps.len() > 0 { ps[0] } else { 0 };
        match action {
            'C' | 'H' | 'f' | 'G' => self.cols > 0,
            'J' | 'K' => mode != 1 || self.cols > 0,
            'm' => sgr_is_defined(ps),
            _ => true,
        }
    }

    /// Moves the cursor for `CSI A`/`B`/`C`/`D`/`H`/`f`/`d`/`G`, sets the
    /// scroll region for `CSI r` and saves/restores the cursor for `CSI s`/`u`.
    fn csi_cursor(&mut self, ps: &[u16], action: char)
        requires
            old(self).wf(),
            csi_defined(old(self)@, ps@, seq![], action),
            action == 'A' || action == 'B' || action == 'C' || action == 'D' || action == 'H' || action == 'f'
                || action == 'd' || action == 'G' || action == 'r' || action == 's' || action == 'u',
        ensures
            final(self).wf(),
            final(self)@ == csi_plain(old(self)@, ps@, action),
    {
        let n: usize = if ps.len() > 0 && ps[0] >= 1 { ps[0] as usize } else { 1 };
        match action {
            'A' => {
                self.cursor_row = self.cursor_row.saturating_sub(n);
            },
            'B' => {
                let t = self.cursor_row + n;
                self.cursor_row = if t <= self.rows - 1 { t } else { self.rows - 1 };
            },
            'C' => {
                let t = self.cursor_col + n;
                self.cursor_col = if t <= self.cols - 1 { t } else { self.cols - 1 };
            },
            'D' => {
                self.cursor_col = self.cursor_col.saturating_sub(n);
            },
            'H' | 'f' => {
                let row = n - 1;
                let second: u16 = if ps.len() > 1 { ps[1] } else { 1 };
                let col = (if second >= 1 { second } else { 1 }) as usize - 1;
                self.cursor_row = if row <= self.rows - 1 { row } else { self.rows - 1 };
                self.cursor_col = if col <= self.cols - 1 { col } else { self.cols - 1 };
            },
            'd' => {
                let row = n - 1;
                self.cursor_row = if row <= self.rows - 1 { row } else { self.rows - 1 };
            },
            'G' => {
                let col = n - 1;
                self.cursor_col = if col <= self.cols - 1 { col } else { self.cols - 1 };
            },
            'r' => {
                let top = n - 1;
                let second: u16 = if ps.len() > 1 { ps[1] } else { #[verifier::truncate] (self.rows as u16) };
                let bot = (if second >= 1 { second } else { 1 }) as usize - 1;
                self.scroll_top = if top <= self.rows - 1 { top } else { self.rows - 1 };
                self.scroll_bottom = if bot <= self.rows - 1 { bot } else { self.rows - 1 };
                self.cursor_row = 0;
                self.cursor_col = 0;
            },
            's' => {
                self.saved_cursor = (self.cursor_row, self.cursor_col);
            },
            _ => {
                let (r, c) = self.saved_cursor;
                self.cursor_row = r;
                self.cursor_col = c;
            },
        }
    }

    /// Erases for `CSI J`, `CSI K` and `CSI X`.
    fn csi_erase(&mut self, ps: &[u16], action: char)
        requires
            old(self).wf(),
            csi_defined(old(self)@, ps@, seq![], action),
            action == 'J' || action == 'K' || action == 'X',
        ensures
            final(self).wf(),
            final(self)@ == csi_plain(old(self)@, ps@, action),
    {
        let ghost g = old(self)@;
        let mode: u16 = if ps.len() > 0 { ps[0] } else { 0 };
        let row = self.cursor_row;
        let col = self.cursor_col;
        match action {
            'J' => {
                if mode == 0 {
                    self.blank_cells(row, col, self.cols);
                    self.blank_rows(row + 1, self.rows);
                    assert(self@.cells =~= blank_lines(g.cells, row + 1, g.rows, g.cols).update(
                        row as int,
                        blank_span(g.cells[row as int], col as int, g.cols),
                    ));
                } else if mode == 1 {
                    self.blank_rows(0, row);
                    let last = if col <= self.cols - 1 { col } else { self.cols - 1 };
                    self.blank_cells(row, 0, last + 1);
                } else if mode == 2 || mode == 3 {
                    self.blank_rows(0, self.rows);
                }
            },
            'K' => {
                if mode == 0 {
                    self.blank_cells(row, col, self.cols);
                } else if mode == 1 {
                    let last = if col <= self.cols - 1 { col } else { self.cols - 1 };
                    self.blank_cells(row, 0, last + 1);
                } else if mode == 2 {
                    let empty = blank_row_exec(self.cols);
                    self.set_row(row, empty);
                }
            },
            _ => {
                let n: usize = if ps.len() > 0 && ps[0] >= 1 { ps[0] as usize } else { 1 };
                let t = col + n;
                let end = if t <= self.cols { t } else { self.cols };
                self.blank_cells(row, col, end);
            },
        }
    }

    /// Inserts and deletes lines and cells for `CSI L`/`M`/`P`/`@` and
    /// scrolls for `CSI S`/`T`.
    fn csi_edit(&mut self, ps: &[u16], action: char)
        requires
            old(self).wf(),
            action == 'L' || action == 'M' || action == 'P' || action == '@' || action == 'S' || action == 'T',
        ensures
            final(self).wf(),
            final(self)@ == csi_plain(old(self)@, ps@, action),
    {
        let n: usize = if ps.len() > 0 && ps[0] >= 1 { ps[0] as usize } else { 1 };
        match action {
            'L' => {
                if self.cursor_row <= self.scroll_bottom {
                    self.insert_lines(n);
                }
            },
            'M' => {
                if self.cursor_row <= self.scroll_bottom {
                    self.delete_lines(n);
                }
            },
            'P' => {
                if self.cursor_col < self.cols {
                    self.delete_chars(n);
                }
            },
            '@' => {
                if self.cursor_col < self.cols {
                    self.insert_chars(n);
                }
            },
            'S' => {
                self.scroll_up_by(n);
            },
            _ => {
                self.scroll_down_by(n);
            },
        }
    }

    /// Applies the control sequence with parameters `ps`, intermediate
    /// bytes `intermediates` and final character `action`.
    pub fn csi_apply(&mut self, ps: &[u16], intermediates: &[u8], action: char)
        requires
            old(self).wf(),
            csi_defined(old(self)@, ps@, intermediates@, action),
        ensures
            final(self).wf(),
            final(self)@ == csi_spec(old(self)@, ps@, intermediates@, action),
    {
        if intermediates.len() == 1 && intermediates[0] == 0x3F {
            if action == 'h' || action == 'l' {
                let enable = action == 'h';
                let mut i: usize = 0;
                while i < ps.len()
                    invariant
                        i <= ps@.len(),
                        self@ == (GridState {
                            cursor_visible: if ps@.subrange(0, i as int).contains(25) {
                                enable
                            } else {
                                old(self)@.cursor_visible
                            },
                            ..old(self)@
                        }),
                    decreases ps@.len() - i,
                {
                    if ps[i] == 25 {
                        self.cursor_visible = enable;
                    }
                    proof {
                        let a = ps@.subrange(0, i as int);
                        let b = ps@.subrange(0, i + 1);
                        assert(b =~= a.push(ps@[i as int]));
                        if a.contains(25) {
                            let k = choose|k: int| 0 <= k < a.len() && a[k] == 25;
                            assert(b[k] == 25);
                        }
                        if ps@[i as int] == 25 {
                            assert(b[i as int] == 25);
                        }
                        if b.contains(25) {
                            let k = choose|k: int| 0 <= k < b.len() && b[k] == 25;
                            if k < i {
                                assert(a[k] == 25);
                            }
                        }
                    }
                    i = i + 1;
                }
                assert(ps@.subrange(0, ps@.len() as int) =~= ps@);
            }
            return;
        }
        if intermediates.len() != 0 {
            return;
        }
        assert(intermediates@ =~= seq![]);
        match action {
            'A' | 'B' | 'C' | 'D' | 'H' | 'f' | 'd' | 'G' | 'r' | 's' | 'u' => self.csi_cursor(ps, action),
            'J' | 'K' | 'X' => self.csi_erase(ps, action),
            'L' | 'M' | 'P' | '@' | 'S' | 'T' => self.csi_edit(ps, action),
            'm' => self.apply_sgr(ps),
            _ => {},
        }
    }

    /// The first value of each group of `groups`, or `None` where a group
    /// is empty.
    fn first_values(groups: &Vec<Vec<u16>>) -> (ps: Option<Vec<u16>>)
        ensures
            ps is Some <==> all_nonempty(groups_view(groups@)),
            ps matches Some(v) ==> v@ == firsts(groups_view(groups@)),
    {
        let ghost gs = groups_view(groups@);
        let mut ps: Vec<u16> = Vec::new();
        let mut i: usize = 0;
        while i < groups.len()
            invariant
                i <= groups@.len(),
                gs == groups_view(groups@),
                gs.len() == groups@.len(),
                forall|j: int| 0 <= j < i ==> #[trigger] gs[j].len() > 0,
                ps@ == firsts(gs).subrange(0, i as int),
            decreases groups@.len() - i,
        {
            assert(gs[i as int] == groups@[i as int]@);
            if groups[i].len() == 0 {
                assert(gs[i as int].len() == 0);
                return None;
            }
            ps.push(groups[i][0]);
            i = i + 1;
            assert(ps@ =~= firsts(gs).subrange(0, i as int));
        }
        assert(ps@ =~= firsts(gs));
        Some(ps)
    }

    /// A control sequence given by its parameter groups: the first value of
    /// each group is applied by `csi_apply`.
    pub fn csi_dispatch_groups(&mut self, groups: &Vec<Vec<u16>>, intermediates: &[u8], action: char)
        requires
            old(self).wf(),
            dispatch_defined(old(self)@, groups_view(groups@), intermediates@, action),
        ensures
            final(self).wf(),
            final(self)@ == csi_spec(old(self)@, firsts(groups_view(groups@)), intermediates@, action),
    {
        let private = intermediates.len() == 1 && intermediates[0] == 0x3F;
        if !private && intermediates.len() != 0 {
            return;
        }
        match Self::first_values(groups) {
            Some(ps) => self.csi_apply(ps.as_slice(), intermediates, action),
            None => {},
        }
    }

    /// Dispatches the control sequence given by its parameter groups where
    /// that is defined on this grid (see `dispatch_defined`), and says
    /// whether it did; otherwise the grid is left as it is.
    pub fn try_csi_dispatch_groups(&mut self, groups: &Vec<Vec<u16>>, intermediates: &[u8], action: char) -> (applied: bool)
        requires
            old(self).wf(),
        ensures
            final(self).wf(),
            applied == dispatch_defined(old(self)@, groups_view(groups@), intermediates@, action),
            applied ==> final(self)@ == csi_spec(old(self)@, firsts(groups_view(groups@)), intermediates@, action),
            !applied ==> final(self)@ == old(self)@,
    {
        let private = intermediates.len() == 1 && intermediates[0] == 0x3F;
        if !private && intermediates.len() != 0 {
            self.csi_dispatch_groups(groups, intermediates, action);
            return true;
        }
        let defined = match Self::first_values(groups) {
            Some(ps) => self.csi_is_defined(ps.as_slice(), intermediates, action),
            None => false,
        };
        if defined {
            self.csi_dispatch_groups(groups, intermediates, action);
        }
        defined
    }

    /// A control sequence from the parser: its parameter list is reduced to
    /// the first value of each group and applied by `csi_apply`. The `ignore`
    /// flag plays no part.
    pub fn csi_dispatch(&mut self, params: &vte::Params, intermediates: &[u8], ignore: bool, action: char)
        requires
            old(self).wf(),
            csi_defined(old(self)@, firsts(param_groups(*params)), intermediates@, action),
        ensures
            final(self).wf(),
            final(self)@ == csi_spec(old(self)@, firsts(param_groups(*params)), intermediates@, action),
    {
        let groups = groups_of(params);
        assert(groups_view(groups@) =~= param_groups(*params));
        assert(all_nonempty(param_groups(*params)));
        self.csi_dispatch_groups(&groups, intermediates, action);
    }

    /// Dispatches the control sequence where that is defined on this grid
    /// (see `csi_defined`), and says whether it did; otherwise the grid is
    /// left as it is.
    pub fn try_csi_dispatch(&mut self, params: &vte::Params, intermediates: &[u8], ignore: bool, action: char) -> (applied: bool)
        requires
            old(self).wf(),
        ensures
            final(self).wf(),
            applied == csi_defined(old(self)@, firsts(param_groups(*params)), intermediates@, action),
            applied ==> final(self)@ == csi_spec(old(self)@, firsts(param_groups(*params)), intermediates@, action),
            !applied ==> final(self)@ == old(self)@,
    {
        let groups = groups_of(params);
        assert(groups_view(groups@) =~= param_groups(*params));
        assert(all_nonempty(param_groups(*params)));
        self.try_csi_dispatch_groups(&groups, intermediates, action)
    }
}

} // verus!
