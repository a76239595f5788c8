use vstd::prelude::*;
use crate::color::{
    color_256_defined, cube_level, rgb, spec_color_256, spec_default_bg, spec_default_fg, standard_color, Color,
};
use crate::grid::csi::{count_param, csi_spec};
use crate::grid::sgr::apply_sgr_spec;
use crate::grid::sgr::{is_direct_color, is_indexed_color, sgr_colors, sgr_from, sgr_next};
use crate::grid::{blank, blank_row, esc_spec, execute_spec, initial_state, put_char_spec, Cell, GridState};
use crate::input::{letter_index, spec_ctrl_key_byte, spec_key_press_bytes, spec_special_key_bytes, Key};
use crate::decoder::vte_step;
use crate::stream::{apply_action, apply_actions, saves_cursor, vte_run, ParserAction};

verus! {

/// Restoring the cursor (`ESC 8`) right after saving it (`ESC 7`) puts it
/// back where it was and changes nothing else.
pub proof fn law_esc_save_restore(g: GridState)
    requires
        g.inv(),
    ensures
        esc_spec(esc_spec(g, 0x37), 0x38) == esc_spec(g, 0x37),
        esc_spec(esc_spec(g, 0x37), 0x38).cursor_row == g.cursor_row,
        esc_spec(esc_spec(g, 0x37), 0x38).cursor_col == g.cursor_col,
{
}

/// Restoring the cursor (`CSI u`) right after saving it (`CSI s`) puts it
/// back where it was and changes nothing else, whatever the parameters.
pub proof fn law_csi_save_restore(g: GridState, ps1: Seq<u16>, ps2: Seq<u16>)
    requires
        g.inv(),
    ensures
        csi_spec(csi_spec(g, ps1, seq![], 's'), ps2, seq![], 'u') == csi_spec(g, ps1, seq![], 's'),
        csi_spec(csi_spec(g, ps1, seq![], 's'), ps2, seq![], 'u').cursor_row == g.cursor_row,
        csi_spec(csi_spec(g, ps1, seq![], 's'), ps2, seq![], 'u').cursor_col == g.cursor_col,
{
}

/// The 16 colours of the basic SGR codes are the first 16 entries of the
/// 256-colour palette: `30+k`/`40+k` select entry `k` and `90+k`/`100+k`
/// entry `8+k`, just as `38;5;n`/`48;5;n` do.
pub proof fn law_sgr_basic_colors_are_palette(fg: Color, bg: Color, k: u16)
    requires
        k < 8,
    ensures
        apply_sgr_spec(fg, bg, seq![(30 + k) as u16]) == apply_sgr_spec(fg, bg, seq![38u16, 5, k]),
        apply_sgr_spec(fg, bg, seq![(40 + k) as u16]) == apply_sgr_spec(fg, bg, seq![48u16, 5, k]),
        apply_sgr_spec(fg, bg, seq![(90 + k) as u16]) == apply_sgr_spec(fg, bg, seq![38u16, 5, (8 + k) as u16]),
        apply_sgr_spec(fg, bg, seq![(100 + k) as u16]) == apply_sgr_spec(fg, bg, seq![48u16, 5, (8 + k) as u16]),
{
    reveal_with_fuel(crate::grid::sgr::sgr_from, 3);
}

/// SGR with no parameter, or with `0`, restores the default colours.
pub proof fn law_sgr_reset(fg: Color, bg: Color)
    ensures
        apply_sgr_spec(fg, bg, seq![]) == (spec_default_fg(), spec_default_bg()),
        apply_sgr_spec(fg, bg, seq![0u16]) == (spec_default_fg(), spec_default_bg()),
{
    reveal_with_fuel(crate::grid::sgr::sgr_from, 2);
}

/// `38;2;r;g;b` and `48;2;r;g;b` select the true colour `(r, g, b)`.
pub proof fn law_sgr_true_color(fg: Color, bg: Color, r: u8, g: u8, b: u8)
    ensures
        apply_sgr_spec(fg, bg, seq![38u16, 2, r as u16, g as u16, b as u16]) == (rgb(r, g, b), bg),
        apply_sgr_spec(fg, bg, seq![48u16, 2, r as u16, g as u16, b as u16]) == (fg, rgb(r, g, b)),
{
    reveal_with_fuel(crate::grid::sgr::sgr_from, 2);
    assert((r as u16) as u8 == r) by (bit_vector);
    assert((g as u16) as u8 == g) by (bit_vector);
    assert((b as u16) as u8 == b) by (bit_vector);
}

/// Every entry of the 256-colour palette is defined; entries 16 to 231 form
/// a 6x6x6 colour cube and entries 232 to 255 a ramp of greys from 8 to 238
/// in steps of 10.
pub proof fn law_palette_layout(idx: u16)
    requires
        idx < 256,
    ensures
        color_256_defined(idx),
        idx < 16 ==> spec_color_256(idx) == standard_color(idx as int),
        16 <= idx < 232 ==> spec_color_256(idx) == rgb(
            cube_level((idx - 16) / 36),
            cube_level((idx - 16) / 6 % 6),
            cube_level((idx - 16) % 6),
        ),
        232 <= idx ==> spec_color_256(idx).r == 8 + 10 * (idx - 232),
        232 <= idx ==> spec_color_256(idx).r == spec_color_256(idx).g == spec_color_256(idx).b,
{
    if 16 <= idx < 232 {
        let i = (idx - 16) as int;
        assert((i % 36) / 6 == (i / 6) % 6) by (nonlinear_arith)
            requires
                0 <= i,
        ;
    }
}

/// Erasing the whole display (`CSI 2 J`) empties every cell and leaves the
/// cursor where it was.
pub proof fn law_erase_display_all(g: GridState)
    requires
        g.inv(),
    ensures
        forall|r: int, c: int|
            0 <= r < g.rows && 0 <= c < g.cols ==> #[trigger] csi_spec(g, seq![2u16], seq![], 'J').cells[r][c]
                == blank(),
        csi_spec(g, seq![2u16], seq![], 'J').cursor_row == g.cursor_row,
        csi_spec(g, seq![2u16], seq![], 'J').cursor_col == g.cursor_col,
        csi_spec(g, seq![2u16], seq![], 'J').inv(),
{
}

/// Deleting (`CSI n P`) the `n` cells just inserted (`CSI n @`) at the cursor
/// gives the line back, except that the `n` cells that were pushed past its
/// end are now empty; other lines are untouched.
pub proof fn law_insert_then_delete_chars(g: GridState, ps: Seq<u16>)
    requires
        g.inv(),
    ensures
        ({
            let h = csi_spec(csi_spec(g, ps, seq![], '@'), ps, seq![], 'P');
            let n = count_param(ps);
            let row = g.cursor_row;
            &&& h.cells.len() == g.cells.len()
            &&& forall|r: int| 0 <= r < g.rows && r != row ==> #[trigger] h.cells[r] == g.cells[r]
            &&& h.cells[row].len() == g.cols
            &&& forall|c: int|
                0 <= c < g.cols ==> #[trigger] h.cells[row][c] == if c < g.cursor_col || c + n < g.cols {
                    g.cells[row][c]
                } else {
                    blank()
                }
        }),
{
}

/// Deleting (`CSI n M`) the `n` lines just inserted (`CSI n L`) at the cursor
/// gives the scroll region back, except that the `n` lines that were pushed
/// past its bottom are now empty; other lines are untouched.
pub proof fn law_insert_then_delete_lines(g: GridState, ps: Seq<u16>)
    requires
        g.inv(),
    ensures
        ({
            let h = csi_spec(csi_spec(g, ps, seq![], 'L'), ps, seq![], 'M');
            let n = count_param(ps);
            &&& h.cells.len() == g.cells.len()
            &&& forall|r: int|
                0 <= r < g.rows ==> #[trigger] h.cells[r] == if g.cursor_row <= r <= g.scroll_bottom && r + n
                    > g.scroll_bottom {
                    blank_row(g.cols)
                } else {
                    g.cells[r]
                }
        }),
{
}

/// Cursor position (`CSI r;c H`) with a row and column inside the grid puts
/// the cursor exactly there (parameters count from 1).
pub proof fn law_cursor_position(g: GridState, r: u16, c: u16)
    requires
        g.inv(),
        1 <= r <= g.rows,
        1 <= c <= g.cols,
    ensures
        csi_spec(g, seq![r, c], seq![], 'H').cursor_row == r - 1,
        csi_spec(g, seq![r, c], seq![], 'H').cursor_col == c - 1,
{
}

/// `CSI ? 25 l` hides the cursor and `CSI ? 25 h` shows it again.
pub proof fn law_cursor_visibility(g: GridState)
    ensures
        !csi_spec(g, seq![25u16], seq![0x3Fu8], 'l').cursor_visible,
        csi_spec(csi_spec(g, seq![25u16], seq![0x3Fu8], 'l'), seq![25u16], seq![0x3Fu8], 'h').cursor_visible,
{
    assert(seq![25u16][0] == 25);
}

/// Printing at a column inside the line, on a line not below the scroll
/// region, writes the character in the current colours under the cursor and
/// moves the cursor one column right.
pub proof fn law_print_writes_at_cursor(g: GridState, ch: char)
    requires
        g.inv(),
        g.cursor_col < g.cols,
        g.cursor_row <= g.scroll_bottom,
    ensures
        put_char_spec(g, ch).cells[g.cursor_row][g.cursor_col] == (crate::grid::Cell { c: ch, fg: g.fg, bg: g.bg }),
        put_char_spec(g, ch).cursor_row == g.cursor_row,
        put_char_spec(g, ch).cursor_col == g.cursor_col + 1,
{
}

/// Printing past the last column wraps: the character lands in column 0 of
/// the next line (or of the scroll region's bottom line, after scrolling).
pub proof fn law_print_wraps(g: GridState, ch: char)
    requires
        g.inv(),
        g.cols > 0,
        g.cursor_col == g.cols,
    ensures
        put_char_spec(g, ch).cursor_col == 1,
        put_char_spec(g, ch).cursor_row == if g.cursor_row + 1 > g.scroll_bottom {
            g.scroll_bottom
        } else {
            g.cursor_row + 1
        },
        put_char_spec(g, ch).cells[put_char_spec(g, ch).cursor_row][0] == (crate::grid::Cell {
            c: ch,
            fg: g.fg,
            bg: g.bg,
        }),
{
}

/// A line feed on the scroll region's bottom line scrolls the region up one
/// line and keeps the cursor on that line.
pub proof fn law_line_feed_scrolls_at_bottom(g: GridState)
    requires
        g.inv(),
        g.cursor_row == g.scroll_bottom,
    ensures
        execute_spec(g, 0x0A) == g.scrolled_up(1),
{
}

/// Ctrl with a letter sends the control code of that letter (`Ctrl+A` is
/// 1, ..., `Ctrl+Z` is 26); no other key sends one.
pub proof fn law_ctrl_letters(key: Key)
    ensures
        letter_index(key) matches Some(i) ==> spec_ctrl_key_byte(key) == Some((i + 1) as u8) && 1 <= i + 1 <= 26,
        letter_index(key) is None ==> spec_ctrl_key_byte(key) is None,
{
}

/// No action but a cursor save changes the saved cursor position.
pub proof fn law_actions_keep_saved_cursor(g: GridState, acts: Seq<ParserAction>)
    requires
        forall|i: int| 0 <= i < acts.len() ==> !saves_cursor(#[trigger] acts[i]),
    ensures
        apply_actions(g, acts).saved_cursor == g.saved_cursor,
    decreases acts.len(),
{
    if acts.len() > 0 {
        let rest = acts.drop_last();
        assert forall|i: int| 0 <= i < rest.len() implies !saves_cursor(#[trigger] rest[i]) by {
            assert(rest[i] == acts[i]);
        }
        law_actions_keep_saved_cursor(g, rest);
        assert(!saves_cursor(acts[acts.len() - 1]));
    }
}

/// A cursor restore (`ESC 8` or `CSI u`) after a save (`ESC 7` or `CSI s`)
/// and any actions that save nothing puts the cursor back where it was
/// saved, and changes nothing else; on a fresh grid with no save it goes to
/// the top left.
pub proof fn law_restore_after_any_actions(
    g: GridState,
    acts: Seq<ParserAction>,
    ps_save: Seq<u16>,
    ps_restore: Seq<u16>,
    rows: int,
    cols: int,
)
    requires
        forall|i: int| 0 <= i < acts.len() ==> !saves_cursor(#[trigger] acts[i]),
    ensures
        ({
            let h = apply_actions(esc_spec(g, 0x37), acts);
            &&& esc_spec(h, 0x38) == h.with_cursor(g.cursor_row, g.cursor_col)
            &&& csi_spec(h, ps_restore, seq![], 'u') == h.with_cursor(g.cursor_row, g.cursor_col)
        }),
        ({
            let h = apply_actions(csi_spec(g, ps_save, seq![], 's'), acts);
            &&& esc_spec(h, 0x38) == h.with_cursor(g.cursor_row, g.cursor_col)
            &&& csi_spec(h, ps_restore, seq![], 'u') == h.with_cursor(g.cursor_row, g.cursor_col)
        }),
        ({
            let h = apply_actions(initial_state(rows, cols), acts);
            &&& esc_spec(h, 0x38) == h.with_cursor(0, 0)
            &&& csi_spec(h, ps_restore, seq![], 'u') == h.with_cursor(0, 0)
        }),
{
    law_actions_keep_saved_cursor(esc_spec(g, 0x37), acts);
    law_actions_keep_saved_cursor(csi_spec(g, ps_save, seq![], 's'), acts);
    law_actions_keep_saved_cursor(initial_state(rows, cols), acts);
}

proof fn lemma_sgr_shift(pre: Seq<u16>, qs: Seq<u16>, fg: Color, bg: Color, j: int)
    requires
        0 <= j <= qs.len(),
    ensures
        sgr_from(fg, bg, pre + qs, pre.len() + j) == sgr_from(fg, bg, qs, j),
    decreases qs.len() - j,
{
    let s = pre + qs;
    let p = pre.len() as int;
    if j < qs.len() {
        assert forall|k: int| j <= k < qs.len() implies #[trigger] s[p + k] == qs[k] by {}
        assert(is_indexed_color(s, p + j) == is_indexed_color(qs, j));
        assert(is_direct_color(s, p + j) == is_direct_color(qs, j));
        assert(sgr_next(s, p + j) == p + sgr_next(qs, j));
        assert(sgr_colors(fg, bg, s, p + j) == sgr_colors(fg, bg, qs, j));
        let (f, b) = sgr_colors(fg, bg, qs, j);
        lemma_sgr_shift(pre, qs, f, b, sgr_next(qs, j));
    }
}

proof fn lemma_sgr_prefix(ps: Seq<u16>, qs: Seq<u16>, fg: Color, bg: Color, i: int)
    requires
        0 <= i <= ps.len(),
        forall|k: int| 0 <= k < ps.len() ==> #[trigger] ps[k] != 38 && ps[k] != 48,
    ensures
        sgr_from(fg, bg, ps + qs, i) == sgr_from(sgr_from(fg, bg, ps, i).0, sgr_from(fg, bg, ps, i).1, qs, 0),
    decreases ps.len() - i,
{
    let s = ps + qs;
    if i < ps.len() {
        assert(s[i] == ps[i]);
        assert(ps[i] != 38 && ps[i] != 48);
        assert(sgr_next(s, i) == i + 1);
        assert(sgr_next(ps, i) == i + 1);
        assert(sgr_colors(fg, bg, s, i) == sgr_colors(fg, bg, ps, i));
        let (f, b) = sgr_colors(fg, bg, ps, i);
        lemma_sgr_prefix(ps, qs, f, b, i + 1);
    } else {
        lemma_sgr_shift(ps, qs, fg, bg, 0);
    }
}

/// SGR parameters apply left to right: SGR over `ps` followed by `qs` is SGR
/// over `ps`, then SGR over `qs`, where both lists are non-empty and `ps`
/// holds no `38` or `48` (whose arguments could reach into `qs`).
pub proof fn law_sgr_concatenation(fg: Color, bg: Color, ps: Seq<u16>, qs: Seq<u16>)
    requires
        ps.len() > 0,
        qs.len() > 0,
        !ps.contains(38),
        !ps.contains(48),
    ensures
        apply_sgr_spec(fg, bg, ps + qs) == apply_sgr_spec(
            apply_sgr_spec(fg, bg, ps).0,
            apply_sgr_spec(fg, bg, ps).1,
            qs,
        ),
{
    assert forall|k: int| 0 <= k < ps.len() implies #[trigger] ps[k] != 38 && ps[k] != 48 by {
        if ps[k] == 38 {
            assert(ps.contains(38));
        }
        if ps[k] == 48 {
            assert(ps.contains(48));
        }
    }
    lemma_sgr_prefix(ps, qs, fg, bg, 0);
}

/// On a grid with at least one column, printing always stores the character,
/// in the colours current before, just left of the new cursor; the colours,
/// the scroll region, the saved cursor and its visibility stay as they were.
pub proof fn law_print_stores_left_of_cursor(g: GridState, ch: char)
    requires
        g.inv(),
        g.cols >= 1,
    ensures
        ({
            let h = put_char_spec(g, ch);
            &&& h.inv()
            &&& h.cursor_col >= 1
            &&& h.cells[h.cursor_row][h.cursor_col - 1] == (Cell { c: ch, fg: g.fg, bg: g.bg })
            &&& h.fg == g.fg
            &&& h.bg == g.bg
            &&& h.scroll_top == g.scroll_top
            &&& h.scroll_bottom == g.scroll_bottom
            &&& h.saved_cursor == g.saved_cursor
            &&& h.cursor_visible == g.cursor_visible
        }),
{
}

/// Scrolling the region down one line right after scrolling it up one line
/// gives every line back except the region's top line, which is empty.
pub proof fn law_scroll_down_undoes_scroll_up(g: GridState)
    requires
        g.frame_ok(),
        g.scroll_top <= g.scroll_bottom,
    ensures
        ({
            let h = g.scrolled_up(1).scrolled_down(1);
            &&& h.cells.len() == g.cells.len()
            &&& h.cells[g.scroll_top] == blank_row(g.cols)
            &&& forall|r: int| 0 <= r < g.rows && r != g.scroll_top ==> #[trigger] h.cells[r] == g.cells[r]
        }),
{
}

/// Feeding the decoder a stream in two pieces hands out the same actions,
/// in the same order, as feeding it the whole stream at once.
pub proof fn law_parse_in_pieces(fed: Seq<u8>, a: Seq<u8>, b: Seq<u8>)
    ensures
        vte_run(fed, a + b) == vte_run(fed, a) + vte_run(fed + a, b),
    decreases b.len(),
{
    if b.len() == 0 {
        assert(a + b =~= a);
        assert(vte_run(fed, a) + vte_run(fed + a, b) =~= vte_run(fed, a));
    } else {
        let rest = b.drop_last();
        law_parse_in_pieces(fed, a, rest);
        assert((a + b).drop_last() =~= a + rest);
        assert((a + b).last() == b.last());
        assert(fed + (a + rest) =~= (fed + a) + rest);
        assert(vte_run(fed, a) + vte_run(fed + a, rest) + vte_step(fed + a + rest, b.last())
            =~= vte_run(fed, a) + (vte_run(fed + a, rest) + vte_step(fed + a + rest, b.last())));
    }
}

/// `CSI n S` scrolls the region up by `n` lines (at least one): each line
/// of the region takes the line `n` below it, the last `n` lines of the
/// region come in empty, lines outside the region stay; and scrolling by
/// `n + 1` is scrolling by `n` and then by one more. `CSI n T` is the same
/// downwards.
pub proof fn law_scroll_by_count(g: GridState, n: u16)
    requires
        0 <= g.scroll_top <= g.scroll_bottom < g.cells.len(),
        1 <= n < 0xFFFF,
    ensures
        ({
            let h = csi_spec(g, seq![n], seq![], 'S');
            &&& h.cells.len() == g.cells.len()
            &&& forall|r: int| g.scroll_top <= r && r + n <= g.scroll_bottom ==> #[trigger] h.cells[r] == g.cells[r + n]
            &&& forall|r: int| g.scroll_top <= r <= g.scroll_bottom && g.scroll_bottom < r + n ==> #[trigger] h.cells[r] == blank_row(g.cols)
            &&& forall|r: int| 0 <= r < g.cells.len() && (r < g.scroll_top || g.scroll_bottom < r) ==> #[trigger] h.cells[r] == g.cells[r]
            &&& h == GridState { cells: h.cells, ..g }
        }),
        ({
            let h = csi_spec(g, seq![n], seq![], 'T');
            &&& h.cells.len() == g.cells.len()
            &&& forall|r: int| g.scroll_top <= r - n && r <= g.scroll_bottom ==> #[trigger] h.cells[r] == g.cells[r - n]
            &&& forall|r: int| g.scroll_top <= r <= g.scroll_bottom && r - n < g.scroll_top ==> #[trigger] h.cells[r] == blank_row(g.cols)
            &&& forall|r: int| 0 <= r < g.cells.len() && (r < g.scroll_top || g.scroll_bottom < r) ==> #[trigger] h.cells[r] == g.cells[r]
            &&& h == GridState { cells: h.cells, ..g }
        }),
        csi_spec(g, seq![(n + 1) as u16], seq![], 'S') == csi_spec(csi_spec(g, seq![n], seq![], 'S'), seq![1u16], seq![], 'S'),
        csi_spec(g, seq![(n + 1) as u16], seq![], 'T') == csi_spec(csi_spec(g, seq![n], seq![], 'T'), seq![1u16], seq![], 'T'),
        csi_spec(g, seq![], seq![], 'S') == csi_spec(g, seq![1u16], seq![], 'S'),
        csi_spec(g, seq![0u16], seq![], 'S') == csi_spec(g, seq![1u16], seq![], 'S'),
{
    let up = csi_spec(g, seq![n], seq![], 'S');
    let up2 = csi_spec(up, seq![1u16], seq![], 'S');
    assert(csi_spec(g, seq![(n + 1) as u16], seq![], 'S').cells =~= up2.cells);
    let down = csi_spec(g, seq![n], seq![], 'T');
    let down2 = csi_spec(down, seq![1u16], seq![], 'T');
    assert(csi_spec(g, seq![(n + 1) as u16], seq![], 'T').cells =~= down2.cells);
}

/// The foreground codes (`30`-`37`, `39`, `90`-`97`, `38;5;n`,
/// `38;2;r;g;b`) leave the background as it was, and the background codes
/// (`40`-`47`, `49`, `100`-`107`, `48;5;n`, `48;2;r;g;b`) the foreground;
/// `39` gives the default foreground, light grey `(204, 204, 204)`, and `49`
/// the default background, `(30, 30, 30)`.
pub proof fn law_sgr_codes_touch_one_side(fg: Color, bg: Color, p: u16, n: u16, r: u16, gr: u16, b: u16)
    ensures
        (30 <= p <= 37 || p == 39 || 90 <= p <= 97) ==> apply_sgr_spec(fg, bg, seq![p]).1 == bg,
        (40 <= p <= 47 || p == 49 || 100 <= p <= 107) ==> apply_sgr_spec(fg, bg, seq![p]).0 == fg,
        apply_sgr_spec(fg, bg, seq![38u16, 5, n]).1 == bg,
        apply_sgr_spec(fg, bg, seq![38u16, 2, r, gr, b]).1 == bg,
        apply_sgr_spec(fg, bg, seq![48u16, 5, n]).0 == fg,
        apply_sgr_spec(fg, bg, seq![48u16, 2, r, gr, b]).0 == fg,
        apply_sgr_spec(fg, bg, seq![39u16]) == (Color { r: 204, g: 204, b: 204 }, bg),
        apply_sgr_spec(fg, bg, seq![49u16]) == (fg, Color { r: 30, g: 30, b: 30 }),
{
    reveal_with_fuel(crate::grid::sgr::sgr_from, 2);
}

/// Applying `a` and then `b` is applying `a + b`.
proof fn lemma_apply_actions_concat(g: GridState, a: Seq<ParserAction>, b: Seq<ParserAction>)
    ensures
        apply_actions(g, a + b) == apply_actions(apply_actions(g, a), b),
    decreases b.len(),
{
    if b.len() == 0 {
        assert(a + b =~= a);
    } else {
        lemma_apply_actions_concat(g, a, b.drop_last());
        assert((a + b).drop_last() =~= a + b.drop_last());
        assert((a + b).last() == b.last());
    }
}

/// Applying a single action.
proof fn lemma_apply_one(g: GridState, x: ParserAction)
    ensures
        apply_actions(g, seq![x]) == apply_action(g, x),
{
    reveal_with_fuel(apply_actions, 2);
    assert(seq![x].drop_last() =~= Seq::<ParserAction>::empty());
}

/// Escape sequences from the parser act on the grid, whatever their
/// intermediate bytes and `ignore` flag: `ESC 7` records the cursor position
/// and changes nothing else; `ESC 8`, after it and any actions that save
/// nothing, puts the cursor back there and changes nothing else; `ESC M`
/// moves the cursor up one line, or, on the top line of the scroll region,
/// keeps it and scrolls the region down, an empty line coming in at the top.
pub proof fn law_parsed_escapes(
    g: GridState,
    i1: Seq<u8>,
    ig1: bool,
    i2: Seq<u8>,
    ig2: bool,
    acts: Seq<ParserAction>,
)
    requires
        g.inv(),
        forall|i: int| 0 <= i < acts.len() ==> !saves_cursor(#[trigger] acts[i]),
    ensures
        apply_actions(g, seq![ParserAction::Esc(i1, ig1, 0x37)])
            == (GridState { saved_cursor: (g.cursor_row, g.cursor_col), ..g }),
        ({
            let h = apply_actions(g, seq![ParserAction::Esc(i1, ig1, 0x37)] + acts);
            let k = apply_actions(g, seq![ParserAction::Esc(i1, ig1, 0x37)] + acts + seq![ParserAction::Esc(i2, ig2, 0x38)]);
            &&& k.cursor_row == g.cursor_row
            &&& k.cursor_col == g.cursor_col
            &&& k == (GridState { cursor_row: k.cursor_row, cursor_col: k.cursor_col, ..h })
        }),
        g.cursor_row > g.scroll_top ==> apply_actions(g, seq![ParserAction::Esc(i1, ig1, 0x4D)])
            == (GridState { cursor_row: g.cursor_row - 1, ..g }),
        g.cursor_row == g.scroll_top && g.scroll_top <= g.scroll_bottom ==> {
            let h = apply_actions(g, seq![ParserAction::Esc(i1, ig1, 0x4D)]);
            &&& h == (GridState { cells: h.cells, ..g })
            &&& h.cells.len() == g.cells.len()
            &&& h.cells[g.scroll_top] == blank_row(g.cols)
            &&& forall|r: int| g.scroll_top < r <= g.scroll_bottom ==> #[trigger] h.cells[r] == g.cells[r - 1]
            &&& forall|r: int| 0 <= r < g.cells.len() && (r < g.scroll_top || g.scroll_bottom < r) ==> #[trigger] h.cells[r] == g.cells[r]
        },
{
    let save = ParserAction::Esc(i1, ig1, 0x37);
    let restore = ParserAction::Esc(i2, ig2, 0x38);
    lemma_apply_one(g, save);
    let s0 = apply_actions(g, seq![save]);
    lemma_apply_actions_concat(g, seq![save], acts);
    let h = apply_actions(g, seq![save] + acts);
    law_actions_keep_saved_cursor(s0, acts);
    lemma_apply_actions_concat(g, seq![save] + acts, seq![restore]);
    lemma_apply_one(h, restore);
    lemma_apply_one(g, ParserAction::Esc(i1, ig1, 0x4D));
}

/// The 16 standard colours in palette order: black, red, green, yellow,
/// blue, magenta, cyan, white, then the bright forms of the same eight.
pub open spec fn standard_palette() -> Seq<Color> {
    seq![
        Color { r: 0, g: 0, b: 0 },
        Color { r: 205, g: 49, b: 49 },
        Color { r: 13, g: 188, b: 121 },
        Color { r: 229, g: 229, b: 16 },
        Color { r: 36, g: 114, b: 200 },
        Color { r: 188, g: 63, b: 188 },
        Color { r: 17, g: 168, b: 205 },
        Color { r: 204, g: 204, b: 204 },
        Color { r: 118, g: 118, b: 118 },
        Color { r: 241, g: 76, b: 76 },
        Color { r: 35, g: 209, b: 139 },
        Color { r: 245, g: 245, b: 67 },
        Color { r: 59, g: 142, b: 234 },
        Color { r: 214, g: 112, b: 214 },
        Color { r: 41, g: 184, b: 219 },
        Color { r: 229, g: 229, b: 229 },
    ]
}

/// Palette entries 0 to 15 (which SGR `30`-`37`/`90`-`97` and
/// `40`-`47`/`100`-`107` select) are the standard colours, in order, and no
/// two of them are the same colour.
pub proof fn law_standard_palette(i: u16, j: u16)
    requires
        i < 16,
        j < 16,
    ensures
        spec_color_256(i) == standard_palette()[i as int],
        i != j ==> spec_color_256(i) != spec_color_256(j),
{
}

/// The letter keys in alphabetical order.
pub open spec fn alphabet() -> Seq<Key> {
    seq![Key::A, Key::B, Key::C, Key::D, Key::E, Key::F, Key::G, Key::H, Key::I, Key::J, Key::K, Key::L, Key::M, Key::N, Key::O, Key::P, Key::Q, Key::R, Key::S, Key::T, Key::U, Key::V, Key::W, Key::X, Key::Y, Key::Z]
}

/// Ctrl with the letter at position `i` of the alphabet sends byte `i + 1`
/// (`Ctrl+A` is 1, ..., `Ctrl+Z` is 26), and alone, whatever Alt and Command
/// do; two different keys never send the same control byte.
pub proof fn law_ctrl_alphabet(i: int, k1: Key, k2: Key, alt: bool, command: bool)
    requires
        0 <= i < 26,
    ensures
        spec_ctrl_key_byte(alphabet()[i]) == Some((i + 1) as u8),
        spec_key_press_bytes(alphabet()[i], true, alt, command) == seq![(i + 1) as u8],
        spec_ctrl_key_byte(k1) is Some && spec_ctrl_key_byte(k1) == spec_ctrl_key_byte(k2) ==> k1 == k2,
{
}

/// Cursor movement by a count is that many single steps, each stopping at
/// the edge of the grid: `CSI n+1 A` is `CSI n A` then `CSI 1 A`, and so for
/// `B`, `C` and `D`; a single step moves one line up or down, or one column
/// right or left, where there is room, and changes nothing but the cursor.
pub proof fn law_cursor_moves_by_count(g: GridState, n: u16)
    requires
        g.inv(),
        1 <= n < 0xFFFF,
    ensures
        csi_spec(g, seq![(n + 1) as u16], seq![], 'A') == csi_spec(csi_spec(g, seq![n], seq![], 'A'), seq![1u16], seq![], 'A'),
        csi_spec(g, seq![(n + 1) as u16], seq![], 'B') == csi_spec(csi_spec(g, seq![n], seq![], 'B'), seq![1u16], seq![], 'B'),
        csi_spec(g, seq![(n + 1) as u16], seq![], 'C') == csi_spec(csi_spec(g, seq![n], seq![], 'C'), seq![1u16], seq![], 'C'),
        csi_spec(g, seq![(n + 1) as u16], seq![], 'D') == csi_spec(csi_spec(g, seq![n], seq![], 'D'), seq![1u16], seq![], 'D'),
        g.cursor_row >= 1 ==> csi_spec(g, seq![1u16], seq![], 'A') == (GridState { cursor_row: g.cursor_row - 1, ..g }),
        g.cursor_row == 0 ==> csi_spec(g, seq![1u16], seq![], 'A') == g,
        g.cursor_row + 1 < g.rows ==> csi_spec(g, seq![1u16], seq![], 'B') == (GridState { cursor_row: g.cursor_row + 1, ..g }),
        g.cursor_row + 1 == g.rows ==> csi_spec(g, seq![1u16], seq![], 'B') == g,
        g.cursor_col + 1 < g.cols ==> csi_spec(g, seq![1u16], seq![], 'C') == (GridState { cursor_col: g.cursor_col + 1, ..g }),
        g.cursor_col >= 1 ==> csi_spec(g, seq![1u16], seq![], 'D') == (GridState { cursor_col: g.cursor_col - 1, ..g }),
{
}

/// Editing by a count is that many single edits at the cursor: deleting
/// (`CSI n P`) or inserting (`CSI n @`) `n + 1` cells is doing `n` and then
/// one more, and so for lines (`CSI n M`, `CSI n L`) when the cursor is in
/// the scroll region. A single deletion pulls the cells right of the cursor
/// one column left, an empty cell coming in at the end of the line; a single
/// insertion pushes them one column right, an empty cell going under the
/// cursor; `CSI n X` empties the `n` cells from the cursor on (as far as the
/// line goes) and nothing else.
pub proof fn law_edits_by_count(g: GridState, n: u16)
    requires
        g.inv(),
        1 <= n < 0xFFFF,
    ensures
        csi_spec(g, seq![(n + 1) as u16], seq![], 'P') == csi_spec(csi_spec(g, seq![n], seq![], 'P'), seq![1u16], seq![], 'P'),
        csi_spec(g, seq![(n + 1) as u16], seq![], '@') == csi_spec(csi_spec(g, seq![n], seq![], '@'), seq![1u16], seq![], '@'),
        g.cursor_row <= g.scroll_bottom ==> csi_spec(g, seq![(n + 1) as u16], seq![], 'M')
            == csi_spec(csi_spec(g, seq![n], seq![], 'M'), seq![1u16], seq![], 'M'),
        g.cursor_row <= g.scroll_bottom ==> csi_spec(g, seq![(n + 1) as u16], seq![], 'L')
            == csi_spec(csi_spec(g, seq![n], seq![], 'L'), seq![1u16], seq![], 'L'),
        g.cursor_col < g.cols ==> {
            let h = csi_spec(g, seq![1u16], seq![], 'P');
            let row = g.cursor_row;
            &&& h == (GridState { cells: h.cells, ..g })
            &&& h.cells.len() == g.cells.len()
            &&& forall|r: int| 0 <= r < g.rows && r != row ==> #[trigger] h.cells[r] == g.cells[r]
            &&& h.cells[row].len() == g.cols
            &&& forall|c: int| 0 <= c < g.cursor_col ==> #[trigger] h.cells[row][c] == g.cells[row][c]
            &&& forall|c: int| g.cursor_col <= c < g.cols - 1 ==> #[trigger] h.cells[row][c] == g.cells[row][c + 1]
            &&& h.cells[row][g.cols - 1] == blank()
        },
        g.cursor_col < g.cols ==> {
            let h = csi_spec(g, seq![1u16], seq![], '@');
            let row = g.cursor_row;
            &&& h == (GridState { cells: h.cells, ..g })
            &&& h.cells.len() == g.cells.len()
            &&& forall|r: int| 0 <= r < g.rows && r != row ==> #[trigger] h.cells[r] == g.cells[r]
            &&& h.cells[row].len() == g.cols
            &&& forall|c: int| 0 <= c < g.cursor_col ==> #[trigger] h.cells[row][c] == g.cells[row][c]
            &&& h.cells[row][g.cursor_col] == blank()
            &&& forall|c: int| g.cursor_col < c < g.cols ==> #[trigger] h.cells[row][c] == g.cells[row][c - 1]
        },
        ({
            let h = csi_spec(g, seq![n], seq![], 'X');
            let row = g.cursor_row;
            &&& h == (GridState { cells: h.cells, ..g })
            &&& h.cells.len() == g.cells.len()
            &&& forall|r: int| 0 <= r < g.rows && r != row ==> #[trigger] h.cells[r] == g.cells[r]
            &&& h.cells[row].len() == g.cols
            &&& forall|c: int| 0 <= c < g.cols ==> #[trigger] h.cells[row][c] == if g.cursor_col <= c < g.cursor_col + n {
                blank()
            } else {
                g.cells[row][c]
            }
        }),
{
    let row = g.cursor_row;
    if g.cursor_col < g.cols {
        let p1 = csi_spec(csi_spec(g, seq![n], seq![], 'P'), seq![1u16], seq![], 'P');
        assert(csi_spec(g, seq![(n + 1) as u16], seq![], 'P').cells[row] =~= p1.cells[row]);
        assert(csi_spec(g, seq![(n + 1) as u16], seq![], 'P').cells =~= p1.cells);
        let i1 = csi_spec(csi_spec(g, seq![n], seq![], '@'), seq![1u16], seq![], '@');
        assert(csi_spec(g, seq![(n + 1) as u16], seq![], '@').cells[row] =~= i1.cells[row]);
        assert(csi_spec(g, seq![(n + 1) as u16], seq![], '@').cells =~= i1.cells);
    }
    if row <= g.scroll_bottom {
        let m1 = csi_spec(csi_spec(g, seq![n], seq![], 'M'), seq![1u16], seq![], 'M');
        assert(csi_spec(g, seq![(n + 1) as u16], seq![], 'M').cells =~= m1.cells);
        let l1 = csi_spec(csi_spec(g, seq![n], seq![], 'L'), seq![1u16], seq![], 'L');
        assert(csi_spec(g, seq![(n + 1) as u16], seq![], 'L').cells =~= l1.cells);
    }
}

/// The C0 controls move only the cursor: backspace one column left unless
/// at the first, carriage return to the first column, tab to the next
/// multiple of 8 right of the cursor (the last column where that is past the
/// line), and line feed, vertical tab and form feed one line down where the
/// cursor is above the scroll region's bottom line.
pub proof fn law_c0_controls(g: GridState, m: int)
    requires
        g.inv(),
        g.cols > 0,
        m % 8 == 0,
        g.cursor_col < m <= g.cursor_col + 8,
    ensures
        execute_spec(g, 0x08) == (GridState { cursor_col: if g.cursor_col >= 1 { g.cursor_col - 1 } else { 0 }, ..g }),
        execute_spec(g, 0x0D) == (GridState { cursor_col: 0, ..g }),
        execute_spec(g, 0x09) == (GridState { cursor_col: if m < g.cols { m } else { g.cols - 1 }, ..g }),
        g.cursor_row < g.scroll_bottom ==> {
            &&& execute_spec(g, 0x0A) == (GridState { cursor_row: g.cursor_row + 1, ..g })
            &&& execute_spec(g, 0x0B) == execute_spec(g, 0x0A)
            &&& execute_spec(g, 0x0C) == execute_spec(g, 0x0A)
        },
{
    let col = g.cursor_col;
    assert((col / 8 + 1) * 8 == m) by (nonlinear_arith)
        requires
            m % 8 == 0,
            col < m <= col + 8,
            0 <= col,
    ;
}

/// Erase in line (`CSI n K`) empties, on the cursor's line only, the cells
/// from the cursor to the end (`0`, also with no parameter), from the start
/// through the cursor (`1`) or all of them (`2`), and moves nothing.
pub proof fn law_erase_in_line(g: GridState, mode: u16)
    requires
        g.inv(),
        g.cols > 0,
        mode <= 2,
    ensures
        csi_spec(g, seq![], seq![], 'K') == csi_spec(g, seq![0u16], seq![], 'K'),
        ({
            let h = csi_spec(g, seq![mode], seq![], 'K');
            let row = g.cursor_row;
            &&& h == (GridState { cells: h.cells, ..g })
            &&& h.cells.len() == g.cells.len()
            &&& forall|r: int| 0 <= r < g.rows && r != row ==> #[trigger] h.cells[r] == g.cells[r]
            &&& h.cells[row].len() == g.cols
            &&& forall|c: int| 0 <= c < g.cols ==> #[trigger] h.cells[row][c] == if (mode == 0 && c >= g.cursor_col)
                || (mode == 1 && c <= g.cursor_col) || mode == 2 {
                blank()
            } else {
                g.cells[row][c]
            }
        }),
{
}

/// Erase in display (`CSI n J`): `0` (also with no parameter) empties from
/// the cursor to the end of the screen, `1` from the start of the screen
/// through the cursor; the cursor stays.
pub proof fn law_erase_in_display(g: GridState, mode: u16)
    requires
        g.inv(),
        g.cols > 0,
        mode <= 1,
    ensures
        csi_spec(g, seq![], seq![], 'J') == csi_spec(g, seq![0u16], seq![], 'J'),
        ({
            let h = csi_spec(g, seq![mode], seq![], 'J');
            let row = g.cursor_row;
            &&& h == (GridState { cells: h.cells, ..g })
            &&& h.cells.len() == g.cells.len()
            &&& forall|r: int| 0 <= r < g.rows ==> #[trigger] h.cells[r].len() == g.cols
            &&& forall|r: int, c: int| 0 <= r < g.rows && 0 <= c < g.cols ==> #[trigger] h.cells[r][c] == if (mode == 0
                && (r > row || (r == row && c >= g.cursor_col))) || (mode == 1 && (r < row || (r == row && c
                <= g.cursor_col))) {
                blank()
            } else {
                g.cells[r][c]
            }
        }),
{
}

/// `CSI t;b r` makes lines `t` to `b` (counted from 1) the scroll region,
/// the whole screen with no parameters, and homes the cursor; `CSI n d` and
/// `CSI n G` put the cursor on line `n` and in column `n` (from 1), keeping
/// the other coordinate.
pub proof fn law_region_and_absolute_moves(g: GridState, t: u16, b: u16)
    requires
        g.inv(),
        g.rows <= 0xFFFF,
        1 <= t <= b <= g.rows,
        b <= g.cols,
    ensures
        csi_spec(g, seq![t, b], seq![], 'r')
            == (GridState { scroll_top: t - 1, scroll_bottom: b - 1, cursor_row: 0, cursor_col: 0, ..g }),
        csi_spec(g, seq![], seq![], 'r')
            == (GridState { scroll_top: 0, scroll_bottom: g.rows - 1, cursor_row: 0, cursor_col: 0, ..g }),
        csi_spec(g, seq![b], seq![], 'd') == (GridState { cursor_row: b - 1, ..g }),
        csi_spec(g, seq![b], seq![], 'G') == (GridState { cursor_col: b - 1, ..g }),
{
}

/// Two different special keys never send the same bytes, and every
/// sequence a special key sends is one byte long or starts `ESC [`.
pub proof fn law_special_keys_distinct(k1: Key, k2: Key)
    ensures
        spec_special_key_bytes(k1) is Some && spec_special_key_bytes(k1) == spec_special_key_bytes(k2) ==> k1 == k2,
        spec_special_key_bytes(k1) matches Some(s) ==> s.len() == 1 || (s.len() >= 3 && s[0] == 0x1B && s[1] == 0x5B),
{
    if spec_special_key_bytes(k1) is Some && spec_special_key_bytes(k1) == spec_special_key_bytes(k2) {
        let s1 = spec_special_key_bytes(k1)->0;
        let s2 = spec_special_key_bytes(k2)->0;
        assert(s1.len() == s2.len());
        assert(s1.last() == s2.last());
        assert(s1.len() == 4 ==> s1[2] == s2[2]);
    }
}

/// Each kind of parser action acts on the grid, whatever its `ignore` flag:
/// a printed character lands under the cursor in the current colours (where
/// the cursor is inside the line and not below the scroll region), a
/// carriage return moves to the first column, and `CSI r;c H` moves the
/// cursor to line `r`, column `c` (from 1).
pub proof fn law_parsed_actions_act(g: GridState, ch: char, r: u16, c: u16, ig: bool)
    requires
        g.inv(),
    ensures
        g.cursor_col < g.cols && g.cursor_row <= g.scroll_bottom ==> {
            let h = apply_actions(g, seq![ParserAction::Print(ch)]);
            &&& h.cells[g.cursor_row][g.cursor_col] == (Cell { c: ch, fg: g.fg, bg: g.bg })
            &&& h.cursor_row == g.cursor_row
            &&& h.cursor_col == g.cursor_col + 1
        },
        apply_actions(g, seq![ParserAction::Execute(0x0D)]) == (GridState { cursor_col: 0, ..g }),
        1 <= r <= g.rows && 1 <= c <= g.cols ==> apply_actions(
            g,
            seq![ParserAction::Csi(seq![seq![r], seq![c]], seq![], ig, 'H')],
        ) == (GridState { cursor_row: r - 1, cursor_col: c - 1, ..g }),
{
    lemma_apply_one(g, ParserAction::Print(ch));
    lemma_apply_one(g, ParserAction::Execute(0x0D));
    let csi = ParserAction::Csi(seq![seq![r], seq![c]], seq![], ig, 'H');
    lemma_apply_one(g, csi);
    assert(crate::grid::csi::firsts(seq![seq![r], seq![c]]) =~= seq![r, c]);
}

} // verus!
