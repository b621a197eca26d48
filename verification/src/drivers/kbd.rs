//! The PS/2 keyboard: the queue of scancodes it sends, their decoding into key
//! events, and which key events make characters.
use vstd::prelude::*;
use crate::arch::irq::{IrqNumber, IRQ_BASE};
use pc_keyboard::{layouts, DecodedKey, EventDecoder, HandleControl, KeyEvent, KeyState, ScancodeSet, ScancodeSet1};

verus! {

/// The IRQ line of the keyboard.
pub const KEYBOARD_IRQ: u8 = 1;

/// The interrupt vector of the keyboard IRQ.
pub const VECTOR: u8 = 33;

/// The IRQ of the keyboard.
pub fn irq() -> (r: IrqNumber)
    ensures
        r.0 == KEYBOARD_IRQ,
        VECTOR == IRQ_BASE + r.0,
{
    IrqNumber(KEYBOARD_IRQ)
}

/// The number of queued scancodes beyond which new scancodes are dropped.
pub const QUEUE_LIMIT: usize = 64;

/// Tells whether a scancode received while `queued` scancodes wait in the
/// queue is queued too: it is dropped (and a warning logged) when the queue
/// holds more than `QUEUE_LIMIT` scancodes.
pub fn accepts_scancode(queued: usize) -> (r: bool)
    ensures
        r == (queued <= QUEUE_LIMIT),
{
    queued <= QUEUE_LIMIT
}

/// The keyboard scancode stream. All instances share the same queue of
/// scancodes, so reading from one consumes the scancode for all: in most cases
/// a single instance should be used across the kernel.
#[derive(Debug)]
pub struct KeyboardScancodeStream {}

impl KeyboardScancodeStream {
    /// Creates a keyboard stream.
    pub fn new() -> (r: Self) {
        Self {  }
    }
}

impl Default for KeyboardScancodeStream {
    fn default() -> (r: Self) {
        Self::new()
    }
}

/// The character typed by a key event: the decoded character of a key press,
/// none for a release (which is still decoded, to track the modifier keys).
pub open spec fn typed(pressed: bool, decoded: Option<char>) -> Option<char> {
    if pressed {
        decoded
    } else {
        None
    }
}

/// The character typed by a key event, given whether it is a key press and
/// what the decoder made of it.
pub fn key_character(pressed: bool, decoded: Option<char>) -> (r: Option<char>)
    ensures
        r == typed(pressed, decoded),
{
    if pressed {
        decoded
    } else {
        None
    }
}

/// A key event decoded from scancodes by pc-keyboard.
#[verifier::external_type_specification]
#[verifier::external_body]
pub struct ExKeyEvent(KeyEvent);

/// The scancode set 1 state machine of pc-keyboard.
#[verifier::external_type_specification]
#[verifier::external_body]
pub struct ExScancodeSet1(ScancodeSet1);

/// Calls `ScancodeSet1::new` of pc-keyboard: a state machine at the start of a
/// scancode sequence. Nothing about its state is stated.
#[verifier::external_body]
fn new_scancode_set() -> (r: ScancodeSet1) {
    ScancodeSet1::new()
}

/// Calls `ScancodeSet::advance_state` of pc-keyboard on scancode set 1 with
/// `code`: `Ok(Some(..))` when the code completes a key event, given with
/// whether its state is `KeyState::Down`, `Ok(None)` when more codes are
/// needed, and `Err(())` when the code is invalid in the current state. What
/// comes back depends on the earlier codes, so nothing about it is stated.
#[verifier::external_body]
fn advance_state(set: &mut ScancodeSet1, code: u8) -> (r: Result<Option<(KeyEvent, bool)>, ()>) {
    match set.advance_state(code) {
        Ok(Some(key)) => {
            let pressed = match key.state {
                KeyState::Down => true,
                KeyState::Up => false,
                KeyState::SingleShot => false,
            };
            Ok(Some((key, pressed)))
        },
        Ok(None) => Ok(None),
        Err(_) => Err(()),
    }
}

/// The key decoder of pc-keyboard for the AZERTY layout, letters with Ctrl
/// mapped to Unicode. Verus refuses to declare `EventDecoder`, whose type
/// parameter is bound by a trait of pc-keyboard, so it is held here.
#[verifier::external_body]
pub struct LayoutDecoder {
    decoder: EventDecoder<layouts::Azerty>,
}

impl LayoutDecoder {
    /// Calls `EventDecoder::new` of pc-keyboard with the AZERTY layout and
    /// `HandleControl::MapLettersToUnicode`: no modifier held, num lock on.
    /// Nothing about its state is stated.
    #[verifier::external_body]
    pub fn new() -> (r: Self) {
        LayoutDecoder { decoder: EventDecoder::new(layouts::Azerty, HandleControl::MapLettersToUnicode) }
    }

    /// Calls `EventDecoder::process_keyevent` of pc-keyboard with `key`: the
    /// character it decodes (`DecodedKey::Unicode`), or none for a raw key or
    /// an event that only changes the modifiers. What comes back depends on the
    /// modifiers held, so nothing about it is stated.
    #[verifier::external_body]
    fn decode(&mut self, key: KeyEvent) -> (r: Option<char>) {
        match self.decoder.process_keyevent(key) {
            Some(DecodedKey::Unicode(c)) => Some(c),
            Some(DecodedKey::RawKey(_)) => None,
            None => None,
        }
    }
}

/// What a decoded event types: an invalid scancode is an error, an incomplete
/// sequence types nothing yet, and a key event types `typed(pressed, decoded)`.
pub open spec fn event_char(event: Result<Option<(bool, Option<char>)>, ()>) -> Result<Option<char>, ()> {
    match event {
        Err(()) => Err(()),
        Ok(None) => Ok(None),
        Ok(Some((pressed, decoded))) => Ok(typed(pressed, decoded)),
    }
}

/// The character typed by a decoded event: `event` is what the scancode
/// decoder made of one scancode, an error, nothing yet, or a key event with
/// whether it is a press and the character the layout decoded.
pub fn char_of_event(event: Result<Option<(bool, Option<char>)>, ()>) -> (r: Result<Option<char>, ()>)
    ensures
        r == event_char(event),
{
    match event {
        Err(()) => Err(()),
        Ok(None) => Ok(None),
        Ok(Some((pressed, decoded))) => Ok(key_character(pressed, decoded)),
    }
}

/// The decoder of the keyboard: scancodes of set 1, AZERTY layout.
pub struct KeyDecoder {
    set: ScancodeSet1,
    decoder: LayoutDecoder,
}

impl KeyDecoder {
    /// Creates a decoder at the start of a scancode sequence, with no modifier
    /// held.
    pub fn new() -> (r: Self) {
        KeyDecoder { set: new_scancode_set(), decoder: LayoutDecoder::new() }
    }

    /// Feeds one scancode to the decoder: returns the character it types, if
    /// any, or `Err(())` when the scancode is invalid. Every key event is
    /// decoded, releases too, so that the decoder tracks the modifier keys; only
    /// a press types its character (`char_of_event`). What the scancode set and
    /// the layout make of the scancode depends on the scancodes fed before, so
    /// the result is not stated.
    pub fn feed(&mut self, scancode: u8) -> (r: Result<Option<char>, ()>) {
        let event = match advance_state(&mut self.set, scancode) {
            Err(()) => Err(()),
            Ok(None) => Ok(None),
            Ok(Some((key, pressed))) => {
                let decoded = self.decoder.decode(key);
                Ok(Some((pressed, decoded)))
            },
        };
        char_of_event(event)
    }
}

} // verus!
