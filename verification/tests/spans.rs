use rustty::color::Color;
use rustty::grid::Cell;
use rustty::render::row_spans;

const FG: Color = Color { r: 204, g: 204, b: 204 };
const BG: Color = Color { r: 30, g: 30, b: 30 };
const RED: Color = Color { r: 205, g: 49, b: 49 };

fn cell(c: char, fg: Color, bg: Color) -> Cell {
    Cell { c, fg, bg }
}

#[test]
fn empty_row_has_no_spans() {
    assert!(row_spans(&Vec::new()).is_empty());
}

#[test]
fn runs_split_on_color_change_and_trim() {
    let row = vec![
        cell('h', FG, BG),
        cell('i', FG, BG),
        cell(' ', FG, BG),
        cell('x', RED, BG),
        cell(' ', FG, RED),
        cell(' ', FG, RED),
    ];
    let spans = row_spans(&row);
    assert_eq!(spans.len(), 3);
    assert_eq!((spans[0].start, spans[0].width), (0, 3));
    assert_eq!(spans[0].text, vec!['h', 'i']);
    assert!(!spans[0].fill);
    assert_eq!((spans[1].start, spans[1].width), (3, 1));
    assert_eq!(spans[1].fg, RED);
    assert_eq!(spans[1].text, vec!['x']);
    assert_eq!((spans[2].start, spans[2].width), (4, 2));
    assert!(spans[2].fill);
    assert_eq!(spans[2].bg, RED);
    assert!(spans[2].text.is_empty());
}

#[test]
fn trimming_uses_unicode_whitespace() {
    let row = vec![cell('a', FG, BG), cell('\u{3000}', FG, BG), cell(' ', FG, BG), cell('\t', FG, BG)];
    let spans = row_spans(&row);
    assert_eq!(spans.len(), 1);
    assert_eq!(spans[0].text, vec!['a']);
    let row = vec![cell(' ', FG, BG), cell('b', FG, BG)];
    assert_eq!(row_spans(&row)[0].text, vec![' ', 'b']);
}
