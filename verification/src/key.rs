//! What a key press is before anything has decided which bytes it becomes.
//!
//! The physical key travels, not the character: the same key is `A` on one
//! layout and something else on another, which is what keeps `Ctrl+A` in the
//! same place whatever the layout says. What the layout made of the key
//! travels beside it as text.

use vstd::prelude::*;

verus! {

/// Which way a key moved.
#[derive(Clone, Copy, Debug, PartialEq, Eq, Structural)]
pub enum KeyAction {
    /// The key came back up.
    Release,
    /// The key went down.
    Press,
    /// The key is held and the platform is repeating it.
    Repeat,
}

impl Default for KeyAction {
    /// A press, which is what a key event is unless it says otherwise.
    fn default() -> (action: Self)
        ensures
            action == KeyAction::Press,
    {
        KeyAction::Press
    }
}

/// Modifier state, OR-ed together into a key event's `mods` and
/// `consumed_mods`.
///
/// A side bit says which of a pair is held and means nothing unless its
/// modifier's own bit is set.
#[derive(Clone, Copy, Debug, PartialEq, Eq, Structural)]
pub enum Modifier {
    /// Shift.
    Shift,
    /// Control.
    Ctrl,
    /// Alt, which is Option on macOS.
    Alt,
    /// Super, which is Command on macOS.
    Super,
    /// Caps lock is on.
    CapsLock,
    /// Num lock is on.
    NumLock,
    /// The shift held is the right-hand one.
    ShiftRight,
    /// The control held is the right-hand one.
    CtrlRight,
    /// The alt held is the right-hand one.
    AltRight,
    /// The super held is the right-hand one.
    SuperRight,
}

/// The bit a modifier sets.
pub open spec fn modifier_bit(modifier: Modifier) -> u16 {
    match modifier {
        Modifier::Shift => 1,
        Modifier::Ctrl => 2,
        Modifier::Alt => 4,
        Modifier::Super => 8,
        Modifier::CapsLock => 16,
        Modifier::NumLock => 32,
        Modifier::ShiftRight => 64,
        Modifier::CtrlRight => 128,
        Modifier::AltRight => 256,
        Modifier::SuperRight => 512,
    }
}

impl Modifier {
    /// The bit this modifier sets in `mods`.
    pub fn bit(self) -> (bit: u16)
        ensures
            bit == modifier_bit(self),
    {
        match self {
            Modifier::Shift => 1,
            Modifier::Ctrl => 2,
            Modifier::Alt => 4,
            Modifier::Super => 8,
            Modifier::CapsLock => 16,
            Modifier::NumLock => 32,
            Modifier::ShiftRight => 64,
            Modifier::CtrlRight => 128,
            Modifier::AltRight => 256,
            Modifier::SuperRight => 512,
        }
    }
}

/// A physical key, named as the W3C `KeyboardEvent.code` standard names it.
///
/// The value says where on the keyboard the key is, not what pressing it
/// typed. The media section is left out: nothing on macOS hands an
/// application a key down for one.
#[derive(Clone, Copy, Debug, PartialEq, Eq, Structural)]
pub enum Key {
    /// No key this list names: a platform key with no mapping here.
    Unidentified,
    // Writing System Keys (W3C § 3.1.1)
    Backquote,
    Backslash,
    BracketLeft,
    BracketRight,
    Comma,
    Digit0,
    Digit1,
    Digit2,
    Digit3,
    Digit4,
    Digit5,
    Digit6,
    Digit7,
    Digit8,
    Digit9,
    Equal,
    IntlBackslash,
    IntlRo,
    IntlYen,
    A,
    B,
    C,
    D,
    E,
    F,
    G,
    H,
    I,
    J,
    K,
    L,
    M,
    N,
    O,
    P,
    Q,
    R,
    S,
    T,
    U,
    V,
    W,
    X,
    Y,
    Z,
    Minus,
    Period,
    Quote,
    Semicolon,
    Slash,
    // Functional Keys (W3C § 3.1.2)
    AltLeft,
    AltRight,
    Backspace,
    CapsLock,
    ContextMenu,
    ControlLeft,
    ControlRight,
    Enter,
    MetaLeft,
    MetaRight,
    ShiftLeft,
    ShiftRight,
    Space,
    Tab,
    Convert,
    KanaMode,
    NonConvert,
    // Control Pad Section (W3C § 3.2)
    Delete,
    End,
    Help,
    Home,
    Insert,
    PageDown,
    PageUp,
    // Arrow Pad Section (W3C § 3.3)
    ArrowDown,
    ArrowLeft,
    ArrowRight,
    ArrowUp,
    // Numpad Section (W3C § 3.4)
    NumLock,
    Numpad0,
    Numpad1,
    Numpad2,
    Numpad3,
    Numpad4,
    Numpad5,
    Numpad6,
    Numpad7,
    Numpad8,
    Numpad9,
    NumpadAdd,
    NumpadBackspace,
    NumpadClear,
    NumpadClearEntry,
    NumpadComma,
    NumpadDecimal,
    NumpadDivide,
    NumpadEnter,
    NumpadEqual,
    NumpadMemoryAdd,
    NumpadMemoryClear,
    NumpadMemoryRecall,
    NumpadMemoryStore,
    NumpadMemorySubtract,
    NumpadMultiply,
    NumpadParenLeft,
    NumpadParenRight,
    NumpadSubtract,
    NumpadSeparator,
    NumpadUp,
    NumpadDown,
    NumpadRight,
    NumpadLeft,
    NumpadBegin,
    NumpadHome,
    NumpadEnd,
    NumpadInsert,
    NumpadDelete,
    NumpadPageUp,
    NumpadPageDown,
    // Function Section (W3C § 3.5)
    Escape,
    F1,
    F2,
    F3,
    F4,
    F5,
    F6,
    F7,
    F8,
    F9,
    F10,
    F11,
    F12,
    F13,
    F14,
    F15,
    F16,
    F17,
    F18,
    F19,
    F20,
    F21,
    F22,
    F23,
    F24,
    F25,
    Fn,
    FnLock,
    PrintScreen,
    ScrollLock,
    Pause,
}

impl Default for Key {
    /// No key at all, which is a mapping missing rather than a key.
    fn default() -> (key: Self)
        ensures
            key == Key::Unidentified,
    {
        Key::Unidentified
    }
}

/// One key event as it crosses the boundary: what happened to which key,
/// what was held, and what the layout made of it.
///
/// Which bytes it comes to depends on modes the terminal holds, so nothing
/// here decides that.
#[derive(Clone, Debug)]
pub struct KeyEvent {
    /// Which way the key moved.
    pub action: KeyAction,
    /// Which key it was.
    pub key: Key,
    /// What was held, as modifier bits.
    pub mods: u16,
    /// Which of those the layout already spent on `text`, as modifier bits.
    pub consumed_mods: u16,
    /// What the layout made of the key, as UTF-8; empty where it made
    /// nothing. Control characters do not belong here.
    pub text: Vec<u8>,
    /// Whether an input method is mid-composition.
    pub composing: bool,
}

impl Default for KeyEvent {
    /// A press of no key with nothing held and no text.
    fn default() -> (event: Self)
        ensures
            event.action == KeyAction::Press,
            event.key == Key::Unidentified,
            event.mods == 0,
            event.consumed_mods == 0,
            event.text@ == Seq::<u8>::empty(),
            !event.composing,
    {
        KeyEvent {
            action: KeyAction::Press,
            key: Key::Unidentified,
            mods: 0,
            consumed_mods: 0,
            text: Vec::new(),
            composing: false,
        }
    }
}

/// Whether a key event names a key at all. One that names none is refused
/// at the boundary rather than encoded: the caller has a mapping to fill in.
pub fn names_a_key(key: Key) -> (named: bool)
    ensures
        named == (key != Key::Unidentified),
{
    !matches!(key, Key::Unidentified)
}

} // verus!
