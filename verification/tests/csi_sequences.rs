use rustty::color::Color;
use rustty::grid::TerminalGrid;

fn row_text(g: &TerminalGrid, r: usize) -> String {
    g.cells[r].iter().map(|c| c.c).collect()
}

fn filled(rows: usize, cols: usize) -> TerminalGrid {
    let mut g = TerminalGrid::new(rows, cols);
    for r in 0..rows {
        g.csi_apply(&[(r + 1) as u16, 1], &[], 'H');
        for c in 0..cols {
            g.print((b'a' + ((r * cols + c) % 26) as u8) as char);
        }
    }
    g
}

#[test]
fn cursor_moves_clamp() {
    let mut g = TerminalGrid::new(5, 10);
    g.csi_apply(&[], &[], 'B');
    assert_eq!(g.cursor_row, 1);
    g.csi_apply(&[100], &[], 'B');
    assert_eq!(g.cursor_row, 4);
    g.csi_apply(&[2], &[], 'A');
    assert_eq!(g.cursor_row, 2);
    g.csi_apply(&[9], &[], 'A');
    assert_eq!(g.cursor_row, 0);
    g.csi_apply(&[0], &[], 'C');
    assert_eq!(g.cursor_col, 1);
    g.csi_apply(&[50], &[], 'C');
    assert_eq!(g.cursor_col, 9);
    g.csi_apply(&[4], &[], 'D');
    assert_eq!(g.cursor_col, 5);
    g.csi_apply(&[40], &[], 'D');
    assert_eq!(g.cursor_col, 0);
}

#[test]
fn cursor_position_and_absolute_moves() {
    let mut g = TerminalGrid::new(5, 10);
    g.csi_apply(&[3, 7], &[], 'H');
    assert_eq!((g.cursor_row, g.cursor_col), (2, 6));
    g.csi_apply(&[], &[], 'f');
    assert_eq!((g.cursor_row, g.cursor_col), (0, 0));
    g.csi_apply(&[99, 99], &[], 'H');
    assert_eq!((g.cursor_row, g.cursor_col), (4, 9));
    g.csi_apply(&[2], &[], 'd');
    assert_eq!((g.cursor_row, g.cursor_col), (1, 9));
    g.csi_apply(&[4], &[], 'G');
    assert_eq!((g.cursor_row, g.cursor_col), (1, 3));
    g.csi_apply(&[0], &[], 'G');
    assert_eq!(g.cursor_col, 0);
}

#[test]
fn erase_display_modes() {
    let mut g = filled(3, 3);
    g.csi_apply(&[2, 2], &[], 'H');
    g.csi_apply(&[], &[], 'J');
    assert_eq!(row_text(&g, 0), "abc");
    assert_eq!(row_text(&g, 1), "d  ");
    assert_eq!(row_text(&g, 2), "   ");

    let mut g = filled(3, 3);
    g.csi_apply(&[2, 2], &[], 'H');
    g.csi_apply(&[1], &[], 'J');
    assert_eq!(row_text(&g, 0), "   ");
    assert_eq!(row_text(&g, 1), "  f");
    assert_eq!(row_text(&g, 2), "ghi");

    let mut g = filled(3, 3);
    g.csi_apply(&[3], &[], 'J');
    assert!((0..3).all(|r| row_text(&g, r) == "   "));

    let mut g = filled(3, 3);
    g.csi_apply(&[7], &[], 'J');
    assert_eq!(row_text(&g, 0), "abc");
}

#[test]
fn erase_line_modes() {
    let mut g = filled(2, 4);
    g.csi_apply(&[1, 2], &[], 'H');
    g.csi_apply(&[0], &[], 'K');
    assert_eq!(row_text(&g, 0), "a   ");
    let mut g = filled(2, 4);
    g.csi_apply(&[1, 2], &[], 'H');
    g.csi_apply(&[1], &[], 'K');
    assert_eq!(row_text(&g, 0), "  cd");
    let mut g = filled(2, 4);
    g.csi_apply(&[2, 2], &[], 'H');
    g.csi_apply(&[2], &[], 'K');
    assert_eq!(row_text(&g, 1), "    ");
    assert_eq!(row_text(&g, 0), "abcd");
}

#[test]
fn erase_characters() {
    let mut g = filled(1, 6);
    g.csi_apply(&[1, 2], &[], 'H');
    g.csi_apply(&[3], &[], 'X');
    assert_eq!(row_text(&g, 0), "a   ef");
    g.csi_apply(&[1, 5], &[], 'H');
    g.csi_apply(&[9], &[], 'X');
    assert_eq!(row_text(&g, 0), "a     ");
}

#[test]
fn insert_and_delete_characters() {
    let mut g = filled(1, 5);
    g.csi_apply(&[1, 2], &[], 'H');
    g.csi_apply(&[2], &[], '@');
    assert_eq!(row_text(&g, 0), "a  bc");
    g.csi_apply(&[], &[], 'P');
    assert_eq!(row_text(&g, 0), "a bc ");
    g.csi_apply(&[10], &[], 'P');
    assert_eq!(row_text(&g, 0), "a    ");
}

#[test]
fn insert_and_delete_lines() {
    let mut g = filled(4, 1);
    g.csi_apply(&[2, 1], &[], 'H');
    g.csi_apply(&[1], &[], 'L');
    assert_eq!((0..4).map(|r| row_text(&g, r)).collect::<String>(), "a bc");
    g.csi_apply(&[2], &[], 'M');
    assert_eq!((0..4).map(|r| row_text(&g, r)).collect::<String>(), "ac  ");
}

#[test]
fn lines_below_scroll_region_are_not_edited() {
    let mut g = filled(4, 1);
    g.csi_apply(&[1, 2], &[], 'r');
    g.csi_apply(&[4, 1], &[], 'H');
    g.csi_apply(&[1], &[], 'L');
    g.csi_apply(&[1], &[], 'M');
    assert_eq!((0..4).map(|r| row_text(&g, r)).collect::<String>(), "abcd");
}

#[test]
fn scroll_region_and_scrolling() {
    let mut g = filled(5, 1);
    g.csi_apply(&[2, 4], &[], 'r');
    assert_eq!((g.scroll_top, g.scroll_bottom), (1, 3));
    assert_eq!((g.cursor_row, g.cursor_col), (0, 0));
    g.csi_apply(&[1], &[], 'S');
    assert_eq!((0..5).map(|r| row_text(&g, r)).collect::<String>(), "acd e");
    g.csi_apply(&[2], &[], 'T');
    assert_eq!((0..5).map(|r| row_text(&g, r)).collect::<String>(), "a  ce");
    g.csi_apply(&[], &[], 'r');
    assert_eq!((g.scroll_top, g.scroll_bottom), (0, 4));
}

#[test]
fn inverted_scroll_region_clears_one_line() {
    let mut g = filled(4, 1);
    g.csi_apply(&[3, 2], &[], 'r');
    assert_eq!((g.scroll_top, g.scroll_bottom), (2, 1));
    g.csi_apply(&[2], &[], 'S');
    assert_eq!((0..4).map(|r| row_text(&g, r)).collect::<String>(), "a cd");
    g.csi_apply(&[1], &[], 'T');
    assert_eq!((0..4).map(|r| row_text(&g, r)).collect::<String>(), "a  d");
}

#[test]
fn save_and_restore_cursor_with_csi() {
    let mut g = TerminalGrid::new(5, 5);
    g.csi_apply(&[4, 2], &[], 'H');
    g.csi_apply(&[], &[], 's');
    g.csi_apply(&[1, 1], &[], 'H');
    g.csi_apply(&[], &[], 'u');
    assert_eq!((g.cursor_row, g.cursor_col), (3, 1));
}

#[test]
fn private_mode_25_hides_and_shows_cursor() {
    let mut g = TerminalGrid::new(2, 2);
    g.csi_apply(&[25], &[b'?'], 'l');
    assert!(!g.cursor_visible);
    g.csi_apply(&[1, 25], &[b'?'], 'h');
    assert!(g.cursor_visible);
    g.csi_apply(&[12], &[b'?'], 'l');
    assert!(g.cursor_visible);
}

#[test]
fn sequences_with_other_intermediates_are_ignored() {
    let mut g = TerminalGrid::new(3, 3);
    g.csi_apply(&[2], &[b' '], 'B');
    assert_eq!(g.cursor_row, 0);
    g.csi_apply(&[2], &[], 'z');
    assert_eq!(g.cursor_row, 0);
}

#[test]
fn sgr_colors() {
    let mut g = TerminalGrid::new(2, 2);
    g.csi_apply(&[31, 42], &[], 'm');
    assert_eq!(g.fg, Color { r: 205, g: 49, b: 49 });
    assert_eq!(g.bg, Color { r: 13, g: 188, b: 121 });
    g.csi_apply(&[97, 107], &[], 'm');
    assert_eq!(g.fg, Color { r: 229, g: 229, b: 229 });
    assert_eq!(g.bg, Color { r: 229, g: 229, b: 229 });
    g.csi_apply(&[39, 49], &[], 'm');
    assert_eq!(g.fg, Color { r: 204, g: 204, b: 204 });
    assert_eq!(g.bg, Color { r: 30, g: 30, b: 30 });
    g.csi_apply(&[38, 5, 196, 48, 2, 1, 2, 3], &[], 'm');
    assert_eq!(g.fg, Color { r: 255, g: 0, b: 0 });
    assert_eq!(g.bg, Color { r: 1, g: 2, b: 3 });
    g.csi_apply(&[38, 2, 300, 256, 511], &[], 'm');
    assert_eq!(g.fg, Color { r: 44, g: 0, b: 255 });
    g.csi_apply(&[], &[], 'm');
    assert_eq!(g.fg, Color { r: 204, g: 204, b: 204 });
    assert_eq!(g.bg, Color { r: 30, g: 30, b: 30 });
}

#[test]
fn sgr_incomplete_extended_colors_are_skipped() {
    let mut g = TerminalGrid::new(2, 2);
    g.csi_apply(&[31], &[], 'm');
    g.csi_apply(&[38, 5], &[], 'm');
    assert_eq!(g.fg, Color { r: 205, g: 49, b: 49 });
    g.csi_apply(&[48, 2, 1, 2], &[], 'm');
    assert_eq!(g.bg, Color { r: 30, g: 30, b: 30 });
    g.csi_apply(&[1, 22, 4, 0], &[], 'm');
    assert_eq!(g.fg, Color { r: 204, g: 204, b: 204 });
}

#[test]
fn sgr_colors_are_used_by_print() {
    let mut g = TerminalGrid::new(1, 3);
    g.csi_apply(&[34, 45], &[], 'm');
    g.print('x');
    assert_eq!(g.cells[0][0].fg, Color { r: 36, g: 114, b: 200 });
    assert_eq!(g.cells[0][0].bg, Color { r: 188, g: 63, b: 188 });
    assert_eq!(g.cells[0][1].fg, Color { r: 204, g: 204, b: 204 });
}

#[test]
fn csi_is_defined_reports_panicking_sequences() {
    let g = TerminalGrid::new(2, 0);
    assert!(!g.csi_is_defined(&[], &[], 'C'));
    assert!(!g.csi_is_defined(&[1], &[], 'K'));
    assert!(g.csi_is_defined(&[0], &[], 'K'));
    let h = TerminalGrid::new(2, 2);
    assert!(!h.csi_is_defined(&[38, 5, 300], &[], 'm'));
    assert!(h.csi_is_defined(&[38, 5, 256], &[], 'm'));
    assert!(h.csi_is_defined(&[38, 5, 300], &[b'>'], 'm'));
}
