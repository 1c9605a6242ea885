//! Keyboard input: a key and the modifiers held with it.
use vstd::prelude::*;
use crate::text::is_alphabetic_ascii;
use crate::text::is_ascii_alpha;

verus! {

/// A key on the keyboard.
#[derive(Debug, Clone, Copy, PartialEq, Eq, Structural, Hash)]
pub enum KeyCode {
    Char(char),
    Up,
    Down,
    Left,
    Right,
    Enter,
    Esc,
    Backspace,
    Delete,
    Tab,
    Home,
    End,
    PageUp,
    PageDown,
}

/// The modifiers held with a key.
#[derive(Debug, Clone, Copy, PartialEq, Eq, Structural, Hash, Default)]
pub struct Modifiers {
    pub ctrl: bool,
    pub alt: bool,
    pub shift: bool,
}

/// No modifier.
pub open spec fn no_modifiers() -> Modifiers {
    Modifiers { ctrl: false, alt: false, shift: false }
}

/// Ctrl alone.
pub open spec fn ctrl_modifier() -> Modifiers {
    Modifiers { ctrl: true, alt: false, shift: false }
}

/// Alt alone.
pub open spec fn alt_modifier() -> Modifiers {
    Modifiers { ctrl: false, alt: true, shift: false }
}

/// Shift alone.
pub open spec fn shift_modifier() -> Modifiers {
    Modifiers { ctrl: false, alt: false, shift: true }
}

impl Modifiers {
    /// No modifier.
    pub fn none() -> (m: Self)
        ensures
            m == no_modifiers(),
    {
        Modifiers { ctrl: false, alt: false, shift: false }
    }

    /// Ctrl.
    pub fn control() -> (m: Self)
        ensures
            m == ctrl_modifier(),
    {
        Modifiers { ctrl: true, alt: false, shift: false }
    }

    /// Alt.
    pub fn alt() -> (m: Self)
        ensures
            m == alt_modifier(),
    {
        Modifiers { ctrl: false, alt: true, shift: false }
    }

    /// Shift.
    pub fn shift() -> (m: Self)
        ensures
            m == shift_modifier(),
    {
        Modifiers { ctrl: false, alt: false, shift: true }
    }

    /// Whether Ctrl and Alt are both held (the usual report of AltGr).
    pub fn is_ctrl_alt(&self) -> (b: bool)
        ensures
            b == (self.ctrl && self.alt),
    {
        self.ctrl && self.alt
    }

    /// Whether Alt is held without Ctrl.
    pub fn is_alt_only(&self) -> (b: bool)
        ensures
            b == (self.alt && !self.ctrl),
    {
        self.alt && !self.ctrl
    }

    /// The modifiers with Ctrl and Alt released; Shift is kept.
    pub fn without_ctrl_alt(&self) -> (m: Self)
        ensures
            m == (Modifiers { ctrl: false, alt: false, shift: self.shift }),
    {
        Modifiers { ctrl: false, alt: false, shift: self.shift }
    }
}

/// Values that name a key: a character or a [`KeyCode`].
pub trait IntoKeyCode {
    /// The key that the value names.
    spec fn key_code(&self) -> KeyCode;

    /// The key that the value names.
    fn into_key_code(self) -> (k: KeyCode)
        ensures
            k == self.key_code(),
    ;
}

impl IntoKeyCode for KeyCode {
    open spec fn key_code(&self) -> KeyCode {
        *self
    }

    fn into_key_code(self) -> (k: KeyCode) {
        self
    }
}

impl IntoKeyCode for char {
    open spec fn key_code(&self) -> KeyCode {
        KeyCode::Char(*self)
    }

    fn into_key_code(self) -> (k: KeyCode) {
        KeyCode::Char(self)
    }
}

/// A keyboard input: a key and its modifiers.
#[derive(Debug, Clone, Copy, PartialEq, Eq, Structural, Hash)]
pub struct KeyInput {
    pub key: KeyCode,
    pub modifiers: Modifiers,
}

/// A key input with the given modifiers.
pub open spec fn key_input(key: KeyCode, modifiers: Modifiers) -> KeyInput {
    KeyInput { key, modifiers }
}

/// The AltGr normalization of an input: a non-letter character typed with
/// Ctrl+Alt, or with Alt alone, loses Ctrl and Alt (Shift stays). Letters
/// keep their modifiers, so that bindings such as Alt+f still apply.
pub open spec fn altgr_normalized(k: KeyInput) -> KeyInput {
    match k.key {
        KeyCode::Char(c) => {
            let altgr = (k.modifiers.ctrl && k.modifiers.alt) || (k.modifiers.alt && !k.modifiers.ctrl);
            if altgr && !is_ascii_alpha(c) {
                KeyInput { key: k.key, modifiers: Modifiers { ctrl: false, alt: false, shift: k.modifiers.shift } }
            } else {
                k
            }
        },
        _ => k,
    }
}

impl KeyInput {
    /// A key without modifiers.
    pub fn new<K: IntoKeyCode>(key: K) -> (k: Self)
        ensures
            k == key_input(key.key_code(), no_modifiers()),
    {
        KeyInput { key: key.into_key_code(), modifiers: Modifiers::none() }
    }

    /// A key with Ctrl.
    pub fn ctrl<K: IntoKeyCode>(key: K) -> (k: Self)
        ensures
            k == key_input(key.key_code(), ctrl_modifier()),
    {
        KeyInput { key: key.into_key_code(), modifiers: Modifiers::control() }
    }

    /// A key with Alt.
    pub fn alt<K: IntoKeyCode>(key: K) -> (k: Self)
        ensures
            k == key_input(key.key_code(), alt_modifier()),
    {
        KeyInput { key: key.into_key_code(), modifiers: Modifiers::alt() }
    }

    /// A key with Shift.
    pub fn shift<K: IntoKeyCode>(key: K) -> (k: Self)
        ensures
            k == key_input(key.key_code(), shift_modifier()),
    {
        KeyInput { key: key.into_key_code(), modifiers: Modifiers::shift() }
    }

    /// A key with the given modifiers.
    pub fn with_modifiers<K: IntoKeyCode>(key: K, modifiers: Modifiers) -> (k: Self)
        ensures
            k == key_input(key.key_code(), modifiers),
    {
        KeyInput { key: key.into_key_code(), modifiers }
    }

    /// Normalizes AltGr input for international keyboards, on which symbols
    /// such as `[`, `{` or `@` are typed with AltGr.
    pub fn normalize_altgr(self) -> (k: Self)
        ensures
            k == altgr_normalized(self),
    {
        if let KeyCode::Char(c) = self.key {
            let altgr = self.modifiers.is_ctrl_alt() || self.modifiers.is_alt_only();
            if altgr && !is_alphabetic_ascii(c) {
                return KeyInput { key: self.key, modifiers: self.modifiers.without_ctrl_alt() };
            }
        }
        self
    }
}

} // verus!
