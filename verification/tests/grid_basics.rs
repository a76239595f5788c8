use rustty::color::Color;
use rustty::grid::{Cell, TerminalGrid};

fn blank() -> Cell {
    Cell { c: ' ', fg: Color { r: 204, g: 204, b: 204 }, bg: Color { r: 30, g: 30, b: 30 } }
}

fn row_text(g: &TerminalGrid, r: usize) -> String {
    g.cells[r].iter().map(|c| c.c).collect()
}

fn put_str(g: &mut TerminalGrid, s: &str) {
    for ch in s.chars() {
        g.print(ch);
    }
}

#[test]
fn new_grid_is_blank() {
    let g = TerminalGrid::new(24, 80);
    assert_eq!(g.rows, 24);
    assert_eq!(g.cols, 80);
    assert_eq!(g.cells.len(), 24);
    assert!(g.cells.iter().all(|row| row.len() == 80 && row.iter().all(|c| *c == blank())));
    assert_eq!((g.cursor_row, g.cursor_col), (0, 0));
    assert!(g.cursor_visible);
    assert_eq!((g.scroll_top, g.scroll_bottom), (0, 23));
    assert_eq!(g.fg, Color { r: 204, g: 204, b: 204 });
    assert_eq!(g.bg, Color { r: 30, g: 30, b: 30 });
}

#[test]
fn cell_default_is_space_in_default_colors() {
    assert_eq!(Cell::default(), blank());
}

#[test]
fn print_writes_and_advances() {
    let mut g = TerminalGrid::new(3, 5);
    put_str(&mut g, "ab");
    assert_eq!(row_text(&g, 0), "ab   ");
    assert_eq!((g.cursor_row, g.cursor_col), (0, 2));
}

#[test]
fn print_wraps_at_end_of_line() {
    let mut g = TerminalGrid::new(3, 3);
    put_str(&mut g, "abcd");
    assert_eq!(row_text(&g, 0), "abc");
    assert_eq!(row_text(&g, 1), "d  ");
    assert_eq!((g.cursor_row, g.cursor_col), (1, 1));
}

#[test]
fn print_past_bottom_scrolls() {
    let mut g = TerminalGrid::new(2, 2);
    put_str(&mut g, "abcde");
    assert_eq!(row_text(&g, 0), "cd");
    assert_eq!(row_text(&g, 1), "e ");
    assert_eq!((g.cursor_row, g.cursor_col), (1, 1));
}

#[test]
fn print_on_zero_width_grid_moves_down_only() {
    let mut g = TerminalGrid::new(2, 0);
    g.print('x');
    assert_eq!((g.cursor_row, g.cursor_col), (1, 0));
    g.print('y');
    assert_eq!((g.cursor_row, g.cursor_col), (1, 0));
}

#[test]
fn backspace_saturates() {
    let mut g = TerminalGrid::new(2, 10);
    put_str(&mut g, "a");
    g.execute(0x08);
    assert_eq!(g.cursor_col, 0);
    g.execute(0x08);
    assert_eq!(g.cursor_col, 0);
}

#[test]
fn tab_moves_to_next_stop_and_clamps() {
    let mut g = TerminalGrid::new(2, 20);
    g.execute(0x09);
    assert_eq!(g.cursor_col, 8);
    g.execute(0x09);
    assert_eq!(g.cursor_col, 16);
    g.execute(0x09);
    assert_eq!(g.cursor_col, 19);
    let mut h = TerminalGrid::new(2, 20);
    put_str(&mut h, "abc");
    h.execute(0x09);
    assert_eq!(h.cursor_col, 8);
}

#[test]
fn line_feed_and_carriage_return() {
    let mut g = TerminalGrid::new(3, 4);
    put_str(&mut g, "ab");
    g.execute(0x0D);
    g.execute(0x0A);
    assert_eq!((g.cursor_row, g.cursor_col), (1, 0));
    g.execute(0x0B);
    g.execute(0x0C);
    assert_eq!(g.cursor_row, 2);
    put_str(&mut g, "z");
    g.execute(0x0A);
    assert_eq!(g.cursor_row, 2);
    assert_eq!(row_text(&g, 1), "z   ");
    assert_eq!(row_text(&g, 0), "    ");
    assert_eq!(row_text(&g, 2), "    ");
}

#[test]
fn other_control_bytes_are_ignored() {
    let mut g = TerminalGrid::new(3, 4);
    put_str(&mut g, "ab");
    g.execute(0x07);
    assert_eq!((g.cursor_row, g.cursor_col), (0, 2));
    assert_eq!(row_text(&g, 0), "ab  ");
}

#[test]
fn esc_save_and_restore_cursor() {
    let mut g = TerminalGrid::new(5, 5);
    g.csi_apply(&[3, 4], &[], 'H');
    g.esc_dispatch(&[], false, b'7');
    g.csi_apply(&[1, 1], &[], 'H');
    assert_eq!((g.cursor_row, g.cursor_col), (0, 0));
    g.esc_dispatch(&[], false, b'8');
    assert_eq!((g.cursor_row, g.cursor_col), (2, 3));
}

#[test]
fn esc_reverse_index() {
    let mut g = TerminalGrid::new(3, 2);
    put_str(&mut g, "ab");
    g.execute(0x0D);
    g.execute(0x0A);
    put_str(&mut g, "cd");
    g.esc_dispatch(&[], false, b'M');
    assert_eq!(g.cursor_row, 0);
    g.esc_dispatch(&[], false, b'M');
    assert_eq!(g.cursor_row, 0);
    assert_eq!(row_text(&g, 0), "  ");
    assert_eq!(row_text(&g, 1), "ab");
    assert_eq!(row_text(&g, 2), "cd");
}

#[test]
fn esc_other_bytes_are_ignored() {
    let mut g = TerminalGrid::new(3, 2);
    g.esc_dispatch(&[], false, b'c');
    assert_eq!((g.cursor_row, g.cursor_col), (0, 0));
}
