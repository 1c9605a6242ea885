//! The key event type of earlier versions, kept for existing key maps.
use vstd::prelude::*;
use crate::events::input::{KeyCode, KeyInput, Modifiers, key_input, no_modifiers, ctrl_modifier, alt_modifier};

verus! {

/// A key event; superseded by [`KeyInput`].
#[derive(Debug, Clone, Copy, PartialEq, Eq, Structural, Hash)]
pub enum KeyEvent {
    Char(char),
    Down,
    Up,
    Right,
    Left,
    Enter,
    Esc,
    Backspace,
    Delete,
    Tab,
    Ctrl(char),
    Alt(char),
    Home,
    End,
    Ignored,
}

/// The key input a key event stands for (`Ignored` stands for the character
/// `'\0'`).
pub open spec fn key_event_input(ev: KeyEvent) -> KeyInput {
    match ev {
        KeyEvent::Char(c) => key_input(KeyCode::Char(c), no_modifiers()),
        KeyEvent::Ctrl(c) => key_input(KeyCode::Char(c), ctrl_modifier()),
        KeyEvent::Alt(c) => key_input(KeyCode::Char(c), alt_modifier()),
        KeyEvent::Up => key_input(KeyCode::Up, no_modifiers()),
        KeyEvent::Down => key_input(KeyCode::Down, no_modifiers()),
        KeyEvent::Left => key_input(KeyCode::Left, no_modifiers()),
        KeyEvent::Right => key_input(KeyCode::Right, no_modifiers()),
        KeyEvent::Enter => key_input(KeyCode::Enter, no_modifiers()),
        KeyEvent::Esc => key_input(KeyCode::Esc, no_modifiers()),
        KeyEvent::Backspace => key_input(KeyCode::Backspace, no_modifiers()),
        KeyEvent::Delete => key_input(KeyCode::Delete, no_modifiers()),
        KeyEvent::Tab => key_input(KeyCode::Tab, no_modifiers()),
        KeyEvent::Home => key_input(KeyCode::Home, no_modifiers()),
        KeyEvent::End => key_input(KeyCode::End, no_modifiers()),
        KeyEvent::Ignored => key_input(KeyCode::Char('\0'), no_modifiers()),
    }
}

impl KeyEvent {
    /// The key input the event stands for.
    pub fn to_key_input(self) -> (k: KeyInput)
        ensures
            k == key_event_input(self),
    {
        match self {
            KeyEvent::Char(c) => KeyInput::new(KeyCode::Char(c)),
            KeyEvent::Ctrl(c) => KeyInput::ctrl(KeyCode::Char(c)),
            KeyEvent::Alt(c) => KeyInput::alt(KeyCode::Char(c)),
            KeyEvent::Up => KeyInput::new(KeyCode::Up),
            KeyEvent::Down => KeyInput::new(KeyCode::Down),
            KeyEvent::Left => KeyInput::new(KeyCode::Left),
            KeyEvent::Right => KeyInput::new(KeyCode::Right),
            KeyEvent::Enter => KeyInput::new(KeyCode::Enter),
            KeyEvent::Esc => KeyInput::new(KeyCode::Esc),
            KeyEvent::Backspace => KeyInput::new(KeyCode::Backspace),
            KeyEvent::Delete => KeyInput::new(KeyCode::Delete),
            KeyEvent::Tab => KeyInput::new(KeyCode::Tab),
            KeyEvent::Home => KeyInput::new(KeyCode::Home),
            KeyEvent::End => KeyInput::new(KeyCode::End),
            KeyEvent::Ignored => KeyInput::new(KeyCode::Char('\0')),
        }
    }
}

impl From<KeyEvent> for KeyInput {
    fn from(ev: KeyEvent) -> (k: KeyInput) {
        ev.to_key_input()
    }
}

impl vstd::std_specs::convert::FromSpecImpl<KeyEvent> for KeyInput {
    open spec fn obeys_from_spec() -> bool {
        true
    }

    open spec fn from_spec(ev: KeyEvent) -> KeyInput {
        key_event_input(ev)
    }
}

/// The key event that a terminal key press gives: with Ctrl, a character
/// becomes `Ctrl`; with Alt, a character becomes `Alt` and Backspace
/// `Alt('\x08')`; otherwise each key becomes its event. Anything else, and
/// a key the editor does not know (`None`), is ignored.
pub open spec fn terminal_key_event(code: Option<KeyCode>, modifiers: Modifiers) -> KeyEvent {
    if modifiers.ctrl {
        match code {
            Some(KeyCode::Char(c)) => KeyEvent::Ctrl(c),
            _ => KeyEvent::Ignored,
        }
    } else if modifiers.alt {
        match code {
            Some(KeyCode::Char(c)) => KeyEvent::Alt(c),
            Some(KeyCode::Backspace) => KeyEvent::Alt('\x08'),
            _ => KeyEvent::Ignored,
        }
    } else {
        match code {
            Some(KeyCode::Char(c)) => KeyEvent::Char(c),
            Some(KeyCode::Enter) => KeyEvent::Enter,
            Some(KeyCode::Down) => KeyEvent::Down,
            Some(KeyCode::Up) => KeyEvent::Up,
            Some(KeyCode::Right) => KeyEvent::Right,
            Some(KeyCode::Left) => KeyEvent::Left,
            Some(KeyCode::Esc) => KeyEvent::Esc,
            Some(KeyCode::Backspace) => KeyEvent::Backspace,
            Some(KeyCode::Delete) => KeyEvent::Delete,
            Some(KeyCode::Tab) => KeyEvent::Tab,
            Some(KeyCode::Home) => KeyEvent::Home,
            Some(KeyCode::End) => KeyEvent::End,
            _ => KeyEvent::Ignored,
        }
    }
}

/// The key event for a terminal key press, given its key (`None` for a key
/// the editor does not know) and modifiers.
pub fn key_event_from_terminal(code: Option<KeyCode>, modifiers: Modifiers) -> (e: KeyEvent)
    ensures
        e == terminal_key_event(code, modifiers),
{
    if modifiers.ctrl {
        return match code {
            Some(KeyCode::Char(c)) => KeyEvent::Ctrl(c),
            _ => KeyEvent::Ignored,
        };
    }
    if modifiers.alt {
        return match code {
            Some(KeyCode::Char(c)) => KeyEvent::Alt(c),
            Some(KeyCode::Backspace) => KeyEvent::Alt('\x08'),
            _ => KeyEvent::Ignored,
        };
    }
    match code {
        Some(KeyCode::Char(c)) => KeyEvent::Char(c),
        Some(KeyCode::Enter) => KeyEvent::Enter,
        Some(KeyCode::Down) => KeyEvent::Down,
        Some(KeyCode::Up) => KeyEvent::Up,
        Some(KeyCode::Right) => KeyEvent::Right,
        Some(KeyCode::Left) => KeyEvent::Left,
        Some(KeyCode::Esc) => KeyEvent::Esc,
        Some(KeyCode::Backspace) => KeyEvent::Backspace,
        Some(KeyCode::Delete) => KeyEvent::Delete,
        Some(KeyCode::Tab) => KeyEvent::Tab,
        Some(KeyCode::Home) => KeyEvent::Home,
        Some(KeyCode::End) => KeyEvent::End,
        _ => KeyEvent::Ignored,
    }
}

} // verus!
