use pc_keyboard::{DecodedKey, KeyCode, KeyState};
use rust_os::keyboard::Decoder;

#[test]
fn printable_key_press_decodes_to_its_character() {
    let mut d = Decoder::new();
    assert_eq!(d.decode(0x1E), Some(DecodedKey::Unicode('a')));
    assert_eq!(d.decode(0x02), Some(DecodedKey::Unicode('1')));
}

#[test]
fn key_release_decodes_to_nothing() {
    let mut d = Decoder::new();
    assert_eq!(d.decode(0x9E), None);
}

#[test]
fn extended_prefix_waits_for_the_rest() {
    let mut d = Decoder::new();
    assert_eq!(d.decode(0xE0), None);
    assert_eq!(d.decode(0x48), Some(DecodedKey::RawKey(KeyCode::ArrowUp)));
    // the same byte without the prefix is the keypad's 8
    assert_eq!(d.decode(0x48), Some(DecodedKey::Unicode('8')));
}

#[test]
fn shift_held_gives_capital_letter() {
    let mut d = Decoder::new();
    assert_eq!(d.decode(0x2A), None);
    assert_eq!(d.decode(0x1E), Some(DecodedKey::Unicode('A')));
    assert_eq!(d.decode(0xAA), None);
    assert_eq!(d.decode(0x1E), Some(DecodedKey::Unicode('a')));
}

#[test]
fn add_byte_reports_press_and_release_events() {
    let mut d = Decoder::new();
    let down = d.add_byte(0x1E).unwrap().unwrap();
    assert_eq!(down.code, KeyCode::A);
    assert_eq!(down.state, KeyState::Down);
    let up = d.add_byte(0x9E).unwrap().unwrap();
    assert_eq!(up.code, KeyCode::A);
    assert_eq!(up.state, KeyState::Up);
    assert_eq!(d.add_byte(0xE0), Ok(None));
}

#[test]
fn unknown_code_is_an_error_and_dropped() {
    let mut d = Decoder::new();
    assert_eq!(d.add_byte(0x00), Err(pc_keyboard::Error::UnknownKeyCode));
    assert_eq!(d.decode(0x00), None);
    // an unknown extended code ends the sequence too
    assert_eq!(d.decode(0xE0), None);
    assert_eq!(d.decode(0x01), None);
    assert_eq!(d.decode(0x1E), Some(DecodedKey::Unicode('a')));
}
