use rustty::color::{color_256, Color};
use rustty::grid::{Cell, TerminalGrid};

fn row_text(g: &TerminalGrid, r: usize) -> String {
    g.cells[r].iter().map(|c| c.c).collect()
}

fn colors_after(ps: &[u16]) -> (Color, Color) {
    let mut g = TerminalGrid::new(1, 1);
    g.csi_apply(ps, &[], 'm');
    (g.fg, g.bg)
}

#[test]
fn basic_sgr_colors_match_palette() {
    for k in 0..8u16 {
        assert_eq!(colors_after(&[30 + k]), colors_after(&[38, 5, k]));
        assert_eq!(colors_after(&[40 + k]), colors_after(&[48, 5, k]));
        assert_eq!(colors_after(&[90 + k]), colors_after(&[38, 5, 8 + k]));
        assert_eq!(colors_after(&[100 + k]), colors_after(&[48, 5, 8 + k]));
        assert_eq!(colors_after(&[30 + k]).0, color_256(k));
    }
}

#[test]
fn sgr_zero_and_empty_reset() {
    let mut g = TerminalGrid::new(1, 1);
    g.csi_apply(&[35, 46], &[], 'm');
    g.csi_apply(&[0], &[], 'm');
    assert_eq!((g.fg, g.bg), (Color { r: 204, g: 204, b: 204 }, Color { r: 30, g: 30, b: 30 }));
    g.csi_apply(&[35, 46], &[], 'm');
    g.csi_apply(&[], &[], 'm');
    assert_eq!((g.fg, g.bg), (Color { r: 204, g: 204, b: 204 }, Color { r: 30, g: 30, b: 30 }));
}

#[test]
fn true_color_is_exact() {
    assert_eq!(colors_after(&[38, 2, 10, 20, 30]).0, Color { r: 10, g: 20, b: 30 });
    assert_eq!(colors_after(&[48, 2, 250, 0, 7]).1, Color { r: 250, g: 0, b: 7 });
}

#[test]
fn erase_all_keeps_cursor() {
    let mut g = TerminalGrid::new(3, 3);
    for ch in "abcdefg".chars() {
        g.print(ch);
    }
    let cursor = (g.cursor_row, g.cursor_col);
    g.csi_apply(&[2], &[], 'J');
    assert!(g.cells.iter().all(|row| row.iter().all(|c| *c == Cell::default())));
    assert_eq!((g.cursor_row, g.cursor_col), cursor);
}

#[test]
fn insert_then_delete_chars_restores_line_head() {
    let mut g = TerminalGrid::new(2, 6);
    for ch in "abcdef".chars() {
        g.print(ch);
    }
    g.csi_apply(&[1, 3], &[], 'H');
    g.csi_apply(&[2], &[], '@');
    g.csi_apply(&[2], &[], 'P');
    assert_eq!(row_text(&g, 0), "abcd  ");
}

#[test]
fn insert_then_delete_lines_restores_region_head() {
    let mut g = TerminalGrid::new(4, 1);
    for (r, ch) in "wxyz".chars().enumerate() {
        g.csi_apply(&[(r + 1) as u16, 1], &[], 'H');
        g.print(ch);
    }
    g.csi_apply(&[2, 1], &[], 'H');
    g.csi_apply(&[2], &[], 'L');
    g.csi_apply(&[2], &[], 'M');
    assert_eq!((0..4).map(|r| row_text(&g, r)).collect::<String>(), "wx  ");
}

#[test]
fn line_feed_on_bottom_line_scrolls() {
    let mut g = TerminalGrid::new(2, 1);
    g.print('a');
    g.csi_apply(&[2, 1], &[], 'H');
    g.print('b');
    g.execute(0x0A);
    assert_eq!(g.cursor_row, 1);
    assert_eq!(row_text(&g, 0), "b");
    assert_eq!(row_text(&g, 1), " ");
}

#[test]
fn print_below_scroll_region_jumps_to_its_bottom() {
    let mut g = TerminalGrid::new(4, 3);
    g.csi_apply(&[1, 2], &[], 'r');
    g.csi_apply(&[4, 1], &[], 'H');
    g.print('q');
    assert_eq!((g.cursor_row, g.cursor_col), (1, 1));
    assert_eq!(row_text(&g, 1), "q  ");
}

#[test]
fn restore_after_many_actions() {
    let mut g = TerminalGrid::new(5, 6);
    g.csi_apply(&[3, 4], &[], 'H');
    g.csi_apply(&[], &[], 's');
    g.print('x');
    g.execute(0x0A);
    g.csi_apply(&[1, 1], &[], 'H');
    g.csi_apply(&[2], &[], 'J');
    g.esc_dispatch(&[], false, b'M');
    let cells = g.cells.clone();
    g.esc_dispatch(&[], false, b'8');
    assert_eq!((g.cursor_row, g.cursor_col), (2, 3));
    assert_eq!(g.cells, cells);
}

#[test]
fn restore_without_save_goes_home() {
    let mut g = TerminalGrid::new(5, 6);
    g.csi_apply(&[4, 4], &[], 'H');
    g.csi_apply(&[], &[], 'u');
    assert_eq!((g.cursor_row, g.cursor_col), (0, 0));
}

#[test]
fn sgr_in_one_call_equals_two_calls() {
    let mut one = TerminalGrid::new(1, 1);
    one.csi_apply(&[31, 1, 44, 38, 5, 21], &[], 'm');
    let mut two = TerminalGrid::new(1, 1);
    two.csi_apply(&[31, 1, 44], &[], 'm');
    two.csi_apply(&[38, 5, 21], &[], 'm');
    assert_eq!((one.fg, one.bg), (two.fg, two.bg));
}

#[test]
fn print_stores_just_left_of_cursor() {
    let mut g = TerminalGrid::new(4, 3);
    g.csi_apply(&[33], &[], 'm');
    g.csi_apply(&[1, 2], &[], 'r');
    g.csi_apply(&[4, 3], &[], 'H');
    g.print('k');
    let (r, c) = (g.cursor_row, g.cursor_col);
    assert!(c >= 1);
    assert_eq!(g.cells[r][c - 1], Cell { c: 'k', fg: Color { r: 229, g: 229, b: 16 }, bg: Color { r: 30, g: 30, b: 30 } });
}

#[test]
fn scroll_down_after_scroll_up_restores_all_but_top() {
    let mut g = TerminalGrid::new(4, 1);
    for (r, ch) in "pqrs".chars().enumerate() {
        g.csi_apply(&[(r + 1) as u16, 1], &[], 'H');
        g.print(ch);
    }
    g.csi_apply(&[2, 4], &[], 'r');
    g.csi_apply(&[1], &[], 'S');
    g.csi_apply(&[1], &[], 'T');
    assert_eq!((0..4).map(|r| row_text(&g, r)).collect::<String>(), "p rs");
}
