use rustty::input::{ctrl_key_byte, key_press_bytes, special_key_bytes, Key};

#[test]
fn ctrl_letters_give_control_codes() {
    assert_eq!(ctrl_key_byte(&Key::A), Some(1));
    assert_eq!(ctrl_key_byte(&Key::C), Some(3));
    assert_eq!(ctrl_key_byte(&Key::M), Some(13));
    assert_eq!(ctrl_key_byte(&Key::Z), Some(26));
    assert_eq!(ctrl_key_byte(&Key::Enter), None);
    assert_eq!(ctrl_key_byte(&Key::Other), None);
}

#[test]
fn special_keys() {
    assert_eq!(special_key_bytes(&Key::Enter), Some(b"\r".to_vec()));
    assert_eq!(special_key_bytes(&Key::Backspace), Some(vec![0x7f]));
    assert_eq!(special_key_bytes(&Key::Tab), Some(b"\t".to_vec()));
    assert_eq!(special_key_bytes(&Key::Escape), Some(vec![0x1b]));
    assert_eq!(special_key_bytes(&Key::ArrowUp), Some(b"\x1b[A".to_vec()));
    assert_eq!(special_key_bytes(&Key::ArrowDown), Some(b"\x1b[B".to_vec()));
    assert_eq!(special_key_bytes(&Key::ArrowRight), Some(b"\x1b[C".to_vec()));
    assert_eq!(special_key_bytes(&Key::ArrowLeft), Some(b"\x1b[D".to_vec()));
    assert_eq!(special_key_bytes(&Key::Home), Some(b"\x1b[H".to_vec()));
    assert_eq!(special_key_bytes(&Key::End), Some(b"\x1b[F".to_vec()));
    assert_eq!(special_key_bytes(&Key::Delete), Some(b"\x1b[3~".to_vec()));
    assert_eq!(special_key_bytes(&Key::PageUp), Some(b"\x1b[5~".to_vec()));
    assert_eq!(special_key_bytes(&Key::PageDown), Some(b"\x1b[6~".to_vec()));
    assert_eq!(special_key_bytes(&Key::A), None);
    assert_eq!(special_key_bytes(&Key::Other), None);
}

#[test]
fn key_presses_with_modifiers() {
    assert_eq!(key_press_bytes(Key::C, true, false, false), vec![3]);
    assert_eq!(key_press_bytes(Key::Enter, true, false, false), Vec::<u8>::new());
    assert_eq!(key_press_bytes(Key::Enter, false, false, false), vec![b'\r']);
    assert_eq!(key_press_bytes(Key::Enter, false, true, false), Vec::<u8>::new());
    assert_eq!(key_press_bytes(Key::ArrowLeft, false, false, true), Vec::<u8>::new());
    assert_eq!(key_press_bytes(Key::A, false, false, false), Vec::<u8>::new());
}
