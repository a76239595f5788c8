use rustty::color::Color;
use rustty::grid::TerminalGrid;
use rustty::input::{frame_bytes, InputEvent, Key};
use rustty::decoder::Decoder;
use rustty::stream::{parse_bytes, Action};

fn row_text(g: &TerminalGrid, r: usize) -> String {
    g.cells[r].iter().map(|c| c.c).collect()
}

#[test]
fn parse_bytes_yields_actions_in_order() {
    let mut decoder = Decoder::new();
    let acts = parse_bytes(&mut decoder, b"a\r\x1b[2;3H\x1b7");
    assert_eq!(acts.len(), 4);
    assert!(matches!(acts[0], Action::Print('a')));
    assert!(matches!(acts[1], Action::Execute(0x0D)));
    match &acts[2] {
        Action::Csi(groups, inter, _, 'H') => {
            assert_eq!(groups, &vec![vec![2u16], vec![3u16]]);
            assert!(inter.is_empty());
        }
        other => panic!("unexpected {:?}", other),
    }
    assert!(matches!(acts[3], Action::Esc(_, _, b'7')));
}

#[test]
fn parser_state_carries_across_buffers() {
    let mut decoder = Decoder::new();
    let first = parse_bytes(&mut decoder, b"\x1b[3");
    assert!(first.is_empty());
    let second = parse_bytes(&mut decoder, b"1mZ");
    let mut g = TerminalGrid::new(1, 2);
    assert_eq!(g.apply_parsed(&second), Ok(()));
    assert_eq!(g.cells[0][0].c, 'Z');
    assert_eq!(g.cells[0][0].fg, Color { r: 205, g: 49, b: 49 });
}

#[test]
fn apply_parsed_runs_a_session() {
    let mut decoder = Decoder::new();
    let acts = parse_bytes(&mut decoder, b"hello\r\n\x1b[32mworld\x1b[1;1H\x1b[K");
    let mut g = TerminalGrid::new(3, 6);
    assert_eq!(g.apply_parsed(&acts), Ok(()));
    assert_eq!(row_text(&g, 0), "      ");
    assert_eq!(row_text(&g, 1), "world ");
    assert_eq!(g.cells[1][0].fg, Color { r: 13, g: 188, b: 121 });
    assert_eq!((g.cursor_row, g.cursor_col), (0, 0));
}

#[test]
fn apply_parsed_stops_at_an_undefined_sequence() {
    let mut decoder = Decoder::new();
    let acts = parse_bytes(&mut decoder, b"ab\x1b[38;5;300mcd");
    let mut g = TerminalGrid::new(1, 5);
    assert_eq!(g.apply_parsed(&acts), Err(2));
    assert_eq!(row_text(&g, 0), "ab   ");
    assert_eq!(g.cursor_col, 2);
}

#[test]
fn apply_parsed_stops_at_a_tab_without_columns() {
    let mut decoder = Decoder::new();
    let acts = parse_bytes(&mut decoder, b"\n\t\n");
    let mut g = TerminalGrid::new(3, 0);
    assert_eq!(g.apply_parsed(&acts), Err(1));
    assert_eq!(g.cursor_row, 1);
}

#[test]
fn frame_bytes_concatenates_events() {
    let events = vec![
        InputEvent::Text("hé".as_bytes().to_vec()),
        InputEvent::Key { key: Key::C, pressed: true, ctrl: true, alt: false, command: false },
        InputEvent::Key { key: Key::Enter, pressed: false, ctrl: false, alt: false, command: false },
        InputEvent::Other,
        InputEvent::Key { key: Key::ArrowUp, pressed: true, ctrl: false, alt: false, command: false },
    ];
    assert_eq!(frame_bytes(&events), vec![b'h', 0xC3, 0xA9, 3, 0x1b, b'[', b'A']);
    assert!(frame_bytes(&[]).is_empty());
}

#[test]
fn feeding_in_pieces_gives_the_same_actions() {
    let stream: &[u8] = b"ab\x1b[1;31mc\x1b(Bd\r\n\x1b[2J";
    let mut whole = Decoder::new();
    let all_at_once = format!("{:?}", parse_bytes(&mut whole, stream));
    for split in 0..=stream.len() {
        let mut decoder = Decoder::new();
        let mut acts = parse_bytes(&mut decoder, &stream[..split]);
        acts.extend(parse_bytes(&mut decoder, &stream[split..]));
        assert_eq!(format!("{:?}", acts), all_at_once, "split at {}", split);
    }
}

#[test]
fn escape_intermediates_are_kept() {
    let mut decoder = Decoder::new();
    let acts = parse_bytes(&mut decoder, b"\x1b(B");
    assert_eq!(acts.len(), 1);
    match &acts[0] {
        Action::Esc(inter, ignore, b'B') => {
            assert_eq!(inter, &vec![b'(']);
            assert!(!ignore);
        }
        other => panic!("unexpected {:?}", other),
    }
}
