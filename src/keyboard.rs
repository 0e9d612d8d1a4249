//! Scancode decoding: raw bytes from the keyboard's data port become key
//! events and then decoded keys, through the `pc_keyboard` crate.

use vstd::prelude::*;
use pc_keyboard::layouts::Us104Key;
use pc_keyboard::{
    DecodeState, DecodedKey, HandleControl, KeyCode, KeyEvent, KeyState, Keyboard,
    ScancodeSet, ScancodeSet1,
};

verus! {

// pc_keyboard's plain data types, declared with their variants and fields.
#[verifier::external_type_specification]
pub struct ExDecodeState(DecodeState);

#[verifier::external_type_specification]
pub struct ExKeyCode(KeyCode);

#[verifier::external_type_specification]
pub struct ExKeyState(KeyState);

#[verifier::external_type_specification]
pub struct ExKeyEvent(KeyEvent);

#[verifier::external_type_specification]
pub struct ExDecodedKey(DecodedKey);

#[verifier::external_type_specification]
pub struct ExScanError(pc_keyboard::Error);

/// What one byte of scancode set 1 yields: a key event, nothing yet, or an
/// error.
pub type ScanResult = Result<Option<KeyEvent>, pc_keyboard::Error>;

/// pc_keyboard's `Keyboard` with the US 104-key layout and scancode set 1,
/// for its modifier state and layout mapping. It is held behind this struct
/// because Verus refuses a declaration of `Keyboard`, whose parameters are
/// bound by traits of that crate.
#[verifier::external_body]
pub struct Us104Keyboard {
    inner: Keyboard<Us104Key, ScancodeSet1>,
}

/// Byte that announces a two-byte (extended) scancode.
pub const EXTENDED_PREFIX: u8 = 0xE0;

/// Bit set in a scancode that reports a key release.
pub const RELEASE_BIT: u8 = 0x80;

/// The key that scancode set 1 assigns to a one-byte make code, if any.
pub uninterp spec fn set1_key(code: u8) -> Option<KeyCode>;

/// The key that scancode set 1 assigns to a make code after the extended
/// prefix, if any.
pub uninterp spec fn set1_extended_key(code: u8) -> Option<KeyCode>;

/// What decoding a code gives once the key it names is known: the event, or
/// the unknown-key error where the code names none.
pub open spec fn event_for(key: Option<KeyCode>, state: KeyState) -> ScanResult {
    match key {
        Some(code) => Ok(Some(KeyEvent { code, state })),
        None => Err(pc_keyboard::Error::UnknownKeyCode),
    }
}

/// The scan states that scancode set 1 uses.
pub open spec fn set1_state(s: DecodeState) -> bool {
    s is Start || s is Extended
}

/// Keys whose press only changes the modifier state and decodes to nothing.
pub open spec fn is_modifier(code: KeyCode) -> bool {
    ||| code is ShiftLeft
    ||| code is ShiftRight
    ||| code is CapsLock
    ||| code is NumpadLock
    ||| code is ControlLeft
    ||| code is ControlRight
    ||| code is AltRight
}

/// Whether a scan step's result is a key event that decodes to a key.
pub open spec fn yields_key(step: ScanResult) -> bool {
    match step {
        Ok(Some(ev)) => ev.state is Down && !is_modifier(ev.code),
        _ => false,
    }
}

/// Relies on pc_keyboard's `ScancodeSet1::advance_state` (the step that
/// `Keyboard::add_byte` takes on its own state): from the start state the
/// prefix byte moves to the extended state and yields nothing; any other
/// byte is a make code (below 0x80) or a break code (0x80 and up, less 0x80)
/// looked up in the one-byte table. From the extended state every byte is
/// looked up in the extended table and the state returns to start. A code
/// with no key gives `UnknownKeyCode`. The two release states are never
/// entered by this set, and panic, so they are excluded.
#[verifier::external_body]
fn set1_advance(state: &mut DecodeState, code: u8) -> (r: ScanResult)
    requires
        set1_state(*old(state)),
    ensures
        *old(state) is Start && code == EXTENDED_PREFIX ==> *final(state) is Extended && r matches Ok(None),
        *old(state) is Start && code != EXTENDED_PREFIX && code < RELEASE_BIT ==> *final(state) is Start
            && r == event_for(set1_key(code), KeyState::Down),
        *old(state) is Start && code != EXTENDED_PREFIX && code >= RELEASE_BIT ==> *final(state) is Start
            && r == event_for(set1_key((code - RELEASE_BIT) as u8), KeyState::Up),
        *old(state) is Extended && code < RELEASE_BIT ==> *final(state) is Start && r == event_for(
            set1_extended_key(code),
            KeyState::Down,
        ),
        *old(state) is Extended && code >= RELEASE_BIT ==> *final(state) is Start && r == event_for(
            set1_extended_key((code - RELEASE_BIT) as u8),
            KeyState::Up,
        ),
{
    ScancodeSet1::advance_state(state, code)
}

/// Relies on pc_keyboard's `Keyboard::new`: a US 104-key keyboard with no
/// modifier held and Ctrl left to pass through as a key of its own.
#[verifier::external_body]
fn us104_keyboard() -> Us104Keyboard {
    Us104Keyboard { inner: Keyboard::new(Us104Key, ScancodeSet1, HandleControl::Ignore) }
}

/// Relies on pc_keyboard's `Keyboard::process_keyevent`: a release gives no
/// key, nor does a press of a modifier key (it only updates the modifiers);
/// every other press gives the key that the layout maps it to.
#[verifier::external_body]
fn process_keyevent(keyboard: &mut Us104Keyboard, ev: KeyEvent) -> (r: Option<DecodedKey>)
    ensures
        r.is_some() == (ev.state is Down && !is_modifier(ev.code)),
{
    keyboard.inner.process_keyevent(ev)
}

/// One byte through the decoder, from `pre` to `post`, and whether a key
/// came out: a prefix byte waits for the rest of its scancode, any other
/// byte ends the scancode; a key comes out only for a press of a known,
/// non-modifier key, never for a release.
pub open spec fn decode_step(pre: Decoder, byte: u8, post: Decoder, emitted: bool) -> bool {
    &&& !pre.pending() && byte == EXTENDED_PREFIX ==> post.pending() && !emitted
    &&& pre.pending() || byte != EXTENDED_PREFIX ==> !post.pending()
    &&& !pre.pending() && byte < RELEASE_BIT && byte != EXTENDED_PREFIX ==> (emitted <==> yields_key(
        event_for(set1_key(byte), KeyState::Down),
    ))
    &&& pre.pending() && byte < RELEASE_BIT ==> (emitted <==> yields_key(
        event_for(set1_extended_key(byte), KeyState::Down),
    ))
    &&& byte >= RELEASE_BIT ==> !emitted
}

/// The scan state of set 1 and the keyboard's layout and modifiers. The
/// decoder takes each byte through set 1's state machine itself (the step
/// that `Keyboard::add_byte` takes on a state of its own), so that its
/// contracts can speak of that state, and hands completed events to the
/// keyboard.
pub struct Decoder {
    scan: DecodeState,
    keyboard: Us104Keyboard,
}

impl Decoder {
    /// Where the decoder stands in a multi-byte scancode.
    pub closed spec fn scan_state(self) -> DecodeState {
        self.scan
    }

    pub open spec fn wf(self) -> bool {
        set1_state(self.scan_state())
    }

    /// Whether a prefix byte is waiting for the rest of its scancode.
    pub open spec fn pending(self) -> bool {
        self.scan_state() is Extended
    }

    pub fn new() -> (r: Decoder)
        ensures
            r.wf(),
            !r.pending(),
    {
        Decoder { scan: DecodeState::Start, keyboard: us104_keyboard() }
    }

    /// Takes one byte of scancode set 1 and returns the key event that it
    /// completes, if any.
    pub fn add_byte(&mut self, byte: u8) -> (r: ScanResult)
        requires
            old(self).wf(),
        ensures
            final(self).wf(),
            !old(self).pending() && byte == EXTENDED_PREFIX ==> final(self).pending()
                && r matches Ok(None),
            !old(self).pending() && byte != EXTENDED_PREFIX && byte < RELEASE_BIT ==> !final(self).pending()
                && r == event_for(set1_key(byte), KeyState::Down),
            !old(self).pending() && byte != EXTENDED_PREFIX && byte >= RELEASE_BIT ==> !final(self).pending()
                && r == event_for(set1_key((byte - RELEASE_BIT) as u8), KeyState::Up),
            old(self).pending() && byte < RELEASE_BIT ==> !final(self).pending() && r == event_for(
                set1_extended_key(byte),
                KeyState::Down,
            ),
            old(self).pending() && byte >= RELEASE_BIT ==> !final(self).pending() && r
                == event_for(set1_extended_key((byte - RELEASE_BIT) as u8), KeyState::Up),
    {
        set1_advance(&mut self.scan, byte)
    }

    /// Takes one byte and returns the key that it completes, if any: a
    /// prefix byte waits for the rest of its scancode, an unknown code or a
    /// release is dropped, and a modifier press only updates the modifiers.
    pub fn decode(&mut self, byte: u8) -> (r: Option<DecodedKey>)
        requires
            old(self).wf(),
        ensures
            final(self).wf(),
            decode_step(*old(self), byte, *final(self), r is Some),
    {
        match self.add_byte(byte) {
            Ok(Some(ev)) => process_keyevent(&mut self.keyboard, ev),
            _ => None,
        }
    }
}

} // verus!
