//! The keyboard decoder: scancode bytes in, key events and decoded keys out.
//!
//! The decoding itself is done by `pc_keyboard`, for scancode set 1 and the
//! US layout. [`KeyboardDecoder`] owns that decoder; its contracts speak of
//! the two things the decoder remembers between bytes: whether the prefix of
//! an extended key is pending, and which modifier keys are held.

use vstd::prelude::*;

verus! {

/// `pc_keyboard::KeyCode`, the identity of a key. Nothing is known of such a
/// value but which value it is.
#[verifier::external_type_specification]
#[verifier::external_body]
pub struct ExKeyCode(pc_keyboard::KeyCode);

/// `pc_keyboard::Error`, the reason why the decoder refused a byte.
#[verifier::external_type_specification]
#[verifier::external_body]
pub struct ExDecodeError(pc_keyboard::Error);

/// The byte that announces the second byte of an extended key.
pub const EXTENDED_PREFIX: u8 = 0xE0;

/// The lowest byte that reports a key going up.
pub const RELEASE_BASE: u8 = 0x80;

/// Whether a key went up or down.
#[derive(Debug, Clone, Copy, PartialEq, Eq, Structural)]
pub enum KeyState {
    Up,
    Down,
}

/// One transition of one key.
#[derive(Debug, Clone, Copy, PartialEq, Eq)]
pub struct KeyEvent {
    pub code: pc_keyboard::KeyCode,
    pub state: KeyState,
}

/// What a key press means under the layout: a character, or a key that has
/// none.
#[derive(Debug, Clone, Copy, PartialEq, Eq)]
pub enum DecodedKey {
    RawKey(pc_keyboard::KeyCode),
    Unicode(char),
}

/// The modifier keys that the decoder tracks.
pub struct Modifiers {
    pub lshift: bool,
    pub rshift: bool,
    pub lctrl: bool,
    pub rctrl: bool,
    pub numlock: bool,
    pub capslock: bool,
    pub alt_gr: bool,
}

/// What the decoder remembers from one byte to the next.
pub struct DecoderState {
    /// The prefix of an extended key has come and its second byte has not.
    pub extended: bool,
    pub modifiers: Modifiers,
}

impl DecoderState {
    /// The state of a new decoder: no byte pending, no modifier held, and
    /// the number lock on.
    pub open spec fn initial() -> DecoderState {
        DecoderState {
            extended: false,
            modifiers: Modifiers {
                lshift: false,
                rshift: false,
                lctrl: false,
                rctrl: false,
                numlock: true,
                capslock: false,
                alt_gr: false,
            },
        }
    }
}

/// The direction that a scancode byte of set 1 reports.
pub open spec fn direction(byte: u8) -> KeyState {
    if byte >= RELEASE_BASE {
        KeyState::Up
    } else {
        KeyState::Down
    }
}

/// The fields `decode_state` and `modifiers` of the `pc_keyboard::Keyboard`
/// inside a decoder.
pub uninterp spec fn decoder_state(decoder: KeyboardDecoder) -> DecoderState;

/// The event that `pc_keyboard::Keyboard::add_byte` completes with `byte`,
/// for scancode set 1, when the extended prefix is pending (`extended`) or
/// not; `None` where it completes none or refuses the byte.
pub uninterp spec fn scancode_event(extended: bool, byte: u8) -> Option<KeyEvent>;

/// The modifiers after `pc_keyboard::Keyboard::process_keyevent` has seen
/// `event` under `modifiers`, and the key that it returns, for the US layout
/// with control keys passed through.
pub uninterp spec fn keyevent_outcome(modifiers: Modifiers, event: KeyEvent) -> (
    Modifiers,
    Option<DecodedKey>,
);

/// What one byte from the keyboard does to a decoder in `state` that feeds
/// it in and decodes the event that it completes: the state afterwards, and
/// the key that comes out.
pub open spec fn keystroke(state: DecoderState, byte: u8) -> (DecoderState, Option<DecodedKey>) {
    let extended = !state.extended && byte == EXTENDED_PREFIX;
    match scancode_event(state.extended, byte) {
        Some(event) => {
            let (modifiers, key) = keyevent_outcome(state.modifiers, event);
            (DecoderState { extended, modifiers }, key)
        },
        None => (DecoderState { extended, modifiers: state.modifiers }, None),
    }
}

/// A decoder for scancode set 1 and the US layout, which leaves the control
/// keys alone.
#[verifier::external_body]
pub struct KeyboardDecoder {
    inner: pc_keyboard::Keyboard<pc_keyboard::layouts::Us104Key, pc_keyboard::ScancodeSet1>,
}

impl View for KeyboardDecoder {
    type V = DecoderState;

    open spec fn view(&self) -> DecoderState {
        decoder_state(*self)
    }
}

/// `pc_keyboard::Keyboard::new` with `Us104Key`, `ScancodeSet1` and
/// `HandleControl::Ignore`: the decoder starts with no byte pending, no
/// modifier held and the number lock on.
#[verifier::external_body]
fn keyboard_new() -> (decoder: KeyboardDecoder)
    ensures
        decoder_state(decoder) == DecoderState::initial(),
{
    KeyboardDecoder {
        inner: pc_keyboard::Keyboard::new(
            pc_keyboard::layouts::Us104Key,
            pc_keyboard::ScancodeSet1,
            pc_keyboard::HandleControl::Ignore,
        ),
    }
}

/// `pc_keyboard::Keyboard::add_byte`. With scancode set 1 the prefix byte
/// alone completes nothing and is pending afterwards; every other byte
/// leaves nothing pending, whether it is accepted or not. An event reports a
/// release exactly for a byte of `RELEASE_BASE` and above. The modifiers
/// stay as they are. The decoder is only ever in one of the two states of
/// set 1, in which `add_byte` returns for every byte.
#[verifier::external_body]
fn keyboard_add_byte(decoder: &mut KeyboardDecoder, byte: u8) -> (result: Result<
    Option<KeyEvent>,
    pc_keyboard::Error,
>)
    ensures
        result matches Ok(event) ==> event == scancode_event(decoder_state(*old(decoder)).extended, byte),
        result is Err ==> scancode_event(decoder_state(*old(decoder)).extended, byte) is None,
        !decoder_state(*old(decoder)).extended && byte == EXTENDED_PREFIX ==> result matches Ok(None),
        result matches Ok(Some(event)) ==> event.state == direction(byte),
        decoder_state(*final(decoder)).extended == (!decoder_state(*old(decoder)).extended && byte == EXTENDED_PREFIX),
        decoder_state(*final(decoder)).modifiers == decoder_state(*old(decoder)).modifiers,
{
    match decoder.inner.add_byte(byte) {
        Ok(Some(event)) => Ok(Some(KeyEvent {
            code: event.code,
            state: match event.state {
                pc_keyboard::KeyState::Up => KeyState::Up,
                pc_keyboard::KeyState::Down => KeyState::Down,
            },
        })),
        Ok(None) => Ok(None),
        Err(error) => Err(error),
    }
}

/// `pc_keyboard::Keyboard::process_keyevent`. It leaves the pending prefix
/// alone, and returns a key only for a key that went down.
#[verifier::external_body]
fn keyboard_process_keyevent(decoder: &mut KeyboardDecoder, event: KeyEvent) -> (key: Option<
    DecodedKey,
>)
    ensures
        (decoder_state(*final(decoder)).modifiers, key) == keyevent_outcome(decoder_state(*old(decoder)).modifiers, event),
        decoder_state(*final(decoder)).extended == decoder_state(*old(decoder)).extended,
        event.state == KeyState::Up ==> key is None,
{
    let state = match event.state {
        KeyState::Up => pc_keyboard::KeyState::Up,
        KeyState::Down => pc_keyboard::KeyState::Down,
    };
    match decoder.inner.process_keyevent(pc_keyboard::KeyEvent::new(event.code, state)) {
        Some(pc_keyboard::DecodedKey::RawKey(code)) => Some(DecodedKey::RawKey(code)),
        Some(pc_keyboard::DecodedKey::Unicode(character)) => Some(DecodedKey::Unicode(character)),
        None => None,
    }
}

impl KeyboardDecoder {
    /// A decoder in its initial state.
    pub fn new() -> (decoder: Self)
        ensures
            decoder@ == DecoderState::initial(),
    {
        keyboard_new()
    }

    /// Takes the next byte from the keyboard. Returns the key event that the
    /// byte completes; a prefix byte, and a byte that the scancode set does
    /// not know, give `None`. After a prefix byte the decoder waits for the
    /// second byte; after any other byte it waits for nothing, so a byte
    /// that was dropped does not touch the bytes after it.
    pub fn feed(&mut self, byte: u8) -> (event: Option<KeyEvent>)
        ensures
            event == scancode_event(old(self)@.extended, byte),
            !old(self)@.extended && byte == EXTENDED_PREFIX ==> event is None,
            event matches Some(e) ==> e.state == direction(byte),
            final(self)@.extended == (!old(self)@.extended && byte == EXTENDED_PREFIX),
            final(self)@.modifiers == old(self)@.modifiers,
    {
        match keyboard_add_byte(self, byte) {
            Ok(event) => event,
            Err(_) => None,
        }
    }

    /// Maps a key event through the layout. A modifier key gives `None` and
    /// changes what later presses mean; a release gives `None`.
    pub fn decode(&mut self, event: KeyEvent) -> (key: Option<DecodedKey>)
        ensures
            (final(self)@.modifiers, key) == keyevent_outcome(old(self)@.modifiers, event),
            final(self)@.extended == old(self)@.extended,
            event.state == KeyState::Up ==> key is None,
    {
        keyboard_process_keyevent(self, event)
    }
}

/// A byte that is dropped while no prefix is pending leaves the decoder as it
/// was, so the byte after it is decoded as if the dropped byte had never come.
pub proof fn lemma_dropped_byte_resynchronizes(state: DecoderState, dropped: u8, next: u8)
    requires
        !state.extended,
        scancode_event(false, dropped) is None,
        dropped != EXTENDED_PREFIX,
    ensures
        keystroke(state, dropped) == (state, None::<DecodedKey>),
        keystroke(keystroke(state, dropped).0, next) == keystroke(state, next),
{
}

/// Whatever the second byte of an extended key is, known or not, nothing is
/// pending after it and the modifiers are those that decoding its event left.
pub proof fn lemma_extended_key_completes(state: DecoderState, second: u8)
    requires
        state.extended,
    ensures
        !keystroke(state, second).0.extended,
        scancode_event(true, second) is None ==> keystroke(state, second) == (
            DecoderState { extended: false, modifiers: state.modifiers },
            None::<DecodedKey>,
        ),
{
}

} // verus!
