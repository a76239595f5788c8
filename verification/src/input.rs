use vstd::prelude::*;

verus! {

/// A key of the keyboard, as far as the terminal tells keys apart.
#[derive(Clone, Copy, PartialEq, Eq, Structural, Debug)]
pub enum Key {
    A,
    B,
    C,
    D,
    E,
    F,
    G,
    H,
    I,
    J,
    K,
    L,
    M,
    N,
    O,
    P,
    Q,
    R,
    S,
    T,
    U,
    V,
    W,
    X,
    Y,
    Z,
    Enter,
    Backspace,
    Tab,
    Escape,
    ArrowUp,
    ArrowDown,
    ArrowRight,
    ArrowLeft,
    Home,
    End,
    Delete,
    PageUp,
    PageDown,
    /// Any other key.
    Other,
}

/// The position of a letter key in the alphabet (`A` is 0, `Z` is 25).
pub open spec fn letter_index(key: Key) -> Option<int> {
    match key {
        Key::A => Some(0),
        Key::B => Some(1),
        Key::C => Some(2),
        Key::D => Some(3),
        Key::E => Some(4),
        Key::F => Some(5),
        Key::G => Some(6),
        Key::H => Some(7),
        Key::I => Some(8),
        Key::J => Some(9),
        Key::K => Some(10),
        Key::L => Some(11),
        Key::M => Some(12),
        Key::N => Some(13),
        Key::O => Some(14),
        Key::P => Some(15),
        Key::Q => Some(16),
        Key::R => Some(17),
        Key::S => Some(18),
        Key::T => Some(19),
        Key::U => Some(20),
        Key::V => Some(21),
        Key::W => Some(22),
        Key::X => Some(23),
        Key::Y => Some(24),
        Key::Z => Some(25),
        _ => None,
    }
}

/// The control code that Ctrl with `key` sends: `Ctrl+A` to `Ctrl+Z` give
/// bytes 1 to 26; other keys send none.
pub open spec fn spec_ctrl_key_byte(key: Key) -> Option<u8> {
    match letter_index(key) {
        Some(i) => Some((i + 1) as u8),
        None => None,
    }
}

/// The bytes that an unmodified special key sends: carriage return for
/// Enter, DEL for Backspace, HT for Tab, ESC for Escape, and the VT
/// sequences `ESC [ A`/`B`/`C`/`D` (arrows), `ESC [ H`/`F` (Home, End) and
/// `ESC [ 3 ~`/`5 ~`/`6 ~` (Delete, Page Up, Page Down).
pub open spec fn spec_special_key_bytes(key: Key) -> Option<Seq<u8>> {
    match key {
        Key::Enter => Some(seq![0x0Du8]),
        Key::Backspace => Some(seq![0x7Fu8]),
        Key::Tab => Some(seq![0x09u8]),
        Key::Escape => Some(seq![0x1Bu8]),
        Key::ArrowUp => Some(seq![0x1Bu8, 0x5Bu8, 0x41u8]),
        Key::ArrowDown => Some(seq![0x1Bu8, 0x5Bu8, 0x42u8]),
        Key::ArrowRight => Some(seq![0x1Bu8, 0x5Bu8, 0x43u8]),
        Key::ArrowLeft => Some(seq![0x1Bu8, 0x5Bu8, 0x44u8]),
        Key::Home => Some(seq![0x1Bu8, 0x5Bu8, 0x48u8]),
        Key::End => Some(seq![0x1Bu8, 0x5Bu8, 0x46u8]),
        Key::Delete => Some(seq![0x1Bu8, 0x5Bu8, 0x33u8, 0x7Eu8]),
        Key::PageUp => Some(seq![0x1Bu8, 0x5Bu8, 0x35u8, 0x7Eu8]),
        Key::PageDown => Some(seq![0x1Bu8, 0x5Bu8, 0x36u8, 0x7Eu8]),
        _ => None,
    }
}

/// The control code sent by Ctrl with `key`, if any.
pub fn ctrl_key_byte(key: &Key) -> (b: Option<u8>)
    ensures
        b == spec_ctrl_key_byte(*key),
{
    let b: u8 = match key {
        Key::A => 1,
        Key::B => 2,
        Key::C => 3,
        Key::D => 4,
        Key::E => 5,
        Key::F => 6,
        Key::G => 7,
        Key::H => 8,
        Key::I => 9,
        Key::J => 10,
        Key::K => 11,
        Key::L => 12,
        Key::M => 13,
        Key::N => 14,
        Key::O => 15,
        Key::P => 16,
        Key::Q => 17,
        Key::R => 18,
        Key::S => 19,
        Key::T => 20,
        Key::U => 21,
        Key::V => 22,
        Key::W => 23,
        Key::X => 24,
        Key::Y => 25,
        Key::Z => 26,
        _ => return None,
    };
    Some(b)
}

/// The bytes sent by the special key `key`, if it is one.
pub fn special_key_bytes(key: &Key) -> (bytes: Option<Vec<u8>>)
    ensures
        match (bytes, spec_special_key_bytes(*key)) {
            (Some(v), Some(s)) => v@ == s,
            (None, None) => true,
            _ => false,
        },
{
    match key {
        Key::Enter => Some(vec![0x0Du8]),
        Key::Backspace => Some(vec![0x7Fu8]),
        Key::Tab => Some(vec![0x09u8]),
        Key::Escape => Some(vec![0x1Bu8]),
        Key::ArrowUp => Some(vec![0x1Bu8, 0x5Bu8, 0x41u8]),
        Key::ArrowDown => Some(vec![0x1Bu8, 0x5Bu8, 0x42u8]),
        Key::ArrowRight => Some(vec![0x1Bu8, 0x5Bu8, 0x43u8]),
        Key::ArrowLeft => Some(vec![0x1Bu8, 0x5Bu8, 0x44u8]),
        Key::Home => Some(vec![0x1Bu8, 0x5Bu8, 0x48u8]),
        Key::End => Some(vec![0x1Bu8, 0x5Bu8, 0x46u8]),
        Key::Delete => Some(vec![0x1Bu8, 0x5Bu8, 0x33u8, 0x7Eu8]),
        Key::PageUp => Some(vec![0x1Bu8, 0x5Bu8, 0x35u8, 0x7Eu8]),
        Key::PageDown => Some(vec![0x1Bu8, 0x5Bu8, 0x36u8, 0x7Eu8]),
        _ => None,
    }
}

/// The bytes sent by a press of `key` with the given modifiers: with Ctrl
/// its control code, without Alt and Command its special-key sequence, and
/// nothing otherwise.
pub open spec fn spec_key_press_bytes(key: Key, ctrl: bool, alt: bool, command: bool) -> Seq<u8> {
    if ctrl {
        match spec_ctrl_key_byte(key) {
            Some(b) => seq![b],
            None => seq![],
        }
    } else if !alt && !command {
        match spec_special_key_bytes(key) {
            Some(s) => s,
            None => seq![],
        }
    } else {
        seq![]
    }
}

/// The bytes to send to the shell for a press of `key` with the given
/// modifiers.
pub fn key_press_bytes(key: Key, ctrl: bool, alt: bool, command: bool) -> (bytes: Vec<u8>)
    ensures
        bytes@ == spec_key_press_bytes(key, ctrl, alt, command),
{
    if ctrl {
        match ctrl_key_byte(&key) {
            Some(b) => vec![b],
            None => Vec::new(),
        }
    } else if !alt && !command {
        match special_key_bytes(&key) {
            Some(v) => v,
            None => Vec::new(),
        }
    } else {
        Vec::new()
    }
}

/// One input event of a frame, as far as the terminal uses it.
pub enum InputEvent {
    /// Typed text, as its UTF-8 bytes.
    Text(Vec<u8>),
    /// A key going down (`pressed`) or up, with the modifiers held.
    Key { key: Key, pressed: bool, ctrl: bool, alt: bool, command: bool },
    /// Any other event.
    Other,
}

/// The bytes that event `e` sends to the shell: typed text as it is, a key
/// press as `spec_key_press_bytes` says, nothing for anything else.
pub open spec fn event_bytes(e: InputEvent) -> Seq<u8> {
    match e {
        InputEvent::Text(bytes) => bytes@,
        InputEvent::Key { key, pressed, ctrl, alt, command } => if pressed {
            spec_key_press_bytes(key, ctrl, alt, command)
        } else {
            seq![]
        },
        InputEvent::Other => seq![],
    }
}

/// The bytes of the events `events`, one after another, in order.
pub open spec fn spec_frame_bytes(events: Seq<InputEvent>) -> Seq<u8>
    decreases events.len(),
{
    if events.len() == 0 {
        seq![]
    } else {
        spec_frame_bytes(events.drop_last()) + event_bytes(events.last())
    }
}

fn append_bytes(out: &mut Vec<u8>, bytes: &[u8])
    ensures
        final(out)@ == old(out)@ + bytes@,
{
    let mut i: usize = 0;
    while i < bytes.len()
        invariant
            i <= bytes@.len(),
            out@ == old(out)@ + bytes@.subrange(0, i as int),
        decreases bytes@.len() - i,
    {
        out.push(bytes[i]);
        i = i + 1;
        assert(out@ =~= old(out)@ + bytes@.subrange(0, i as int));
    }
    assert(bytes@.subrange(0, bytes@.len() as int) =~= bytes@);
}

/// The bytes to send to the shell for the input events of one frame.
pub fn frame_bytes(events: &[InputEvent]) -> (bytes: Vec<u8>)
    ensures
        bytes@ == spec_frame_bytes(events@),
{
    let mut out: Vec<u8> = Vec::new();
    let mut i: usize = 0;
    assert(events@.take(0) =~= Seq::<InputEvent>::empty());
    while i < events.len()
        invariant
            i <= events@.len(),
            out@ == spec_frame_bytes(events@.take(i as int)),
        decreases events@.len() - i,
    {
        assert(events@.take(i + 1).drop_last() =~= events@.take(i as int));
        assert(events@.take(i + 1).last() == events@[i as int]);
        match &events[i] {
            InputEvent::Text(text) => {
                append_bytes(&mut out, text.as_slice());
            },
            InputEvent::Key { key, pressed, ctrl, alt, command } => {
                if *pressed {
                    let more = key_press_bytes(*key, *ctrl, *alt, *command);
                    append_bytes(&mut out, more.as_slice());
                } else {
                    assert(out@ =~= out@ + Seq::<u8>::empty());
                }
            },
            InputEvent::Other => {
                assert(out@ =~= out@ + Seq::<u8>::empty());
            },
        }
        i = i + 1;
    }
    assert(events@.take(events@.len() as int) =~= events@);
    out
}

} // verus!
