//! Handling keyboard, mouse and paste events.
pub mod input;
pub mod deprecated;
pub mod key;
pub mod keymap;
pub mod bindings;
pub mod mouse;

use vstd::prelude::*;
use crate::actions::passes;
use crate::actions::cpaste::{Paste, PasteOverSelection};
use crate::events::deprecated::{KeyEvent, key_event_input};
use crate::events::key::{KeyEventHandler, key_effect, looked_up, lookup_step, resolved_key};
use crate::events::input::KeyInput;
use crate::events::keymap::{matches_table, vim_table, emacs_table};
use crate::events::key::to_map;
use crate::events::mouse::{MouseEvent, MouseEventHandler, mouse_effect};
use crate::events::key::KeyEventRegister;
use crate::actions::Action;
use crate::mode::EditorMode;
use crate::state::EditorState;

verus! {

/// An event that the editor handles.
pub enum Event {
    /// A key press.
    Key(KeyEvent),
    /// A mouse event.
    Mouse(MouseEvent),
    /// Text pasted into the terminal.
    Paste(String),
    /// Any other event: the editor ignores it.
    Ignored,
}

/// What a paste event with `text` does: the clipboard is given the text,
/// then it is pasted after the cursor in normal and insert mode, over the
/// selection in visual mode, and not at all in search mode.
pub open spec fn paste_event_effect(text: Seq<char>, old: EditorState, new: EditorState) -> bool {
    exists|mid: EditorState| {
        &&& #[trigger] passes(mid)
        &&& mid == (EditorState { clip: mid.clip, ..old })
        &&& mid.clip.after_set(old.clip, text)
        &&& match old.mode {
            EditorMode::Normal | EditorMode::Insert => Paste.effect(mid, new),
            EditorMode::Visual => PasteOverSelection.effect(mid, new),
            EditorMode::Search => new == mid,
        }
    }
}

/// Handles key, mouse and paste events.
pub struct EditorEventHandler {
    /// The handler of key events, with its key bindings.
    pub key_handler: KeyEventHandler,
}

impl Default for EditorEventHandler {
    /// The Vim-like key map.
    fn default() -> (h: Self)
        ensures
            exists|v: Seq<(KeyEventRegister, Action)>| #[trigger] matches_table(v, vim_table()) && h.key_handler.bindings() == to_map(v),
            h.key_handler.pending() == Seq::<KeyInput>::empty(),
            !h.key_handler.captures_on_insert(),
    {
        Self::vim_mode()
    }
}

impl EditorEventHandler {
    /// A handler with the given key handler.
    pub fn new(key_handler: KeyEventHandler) -> (h: Self)
        ensures
            h.key_handler == key_handler,
    {
        EditorEventHandler { key_handler }
    }

    /// A handler with Vim-like key bindings.
    pub fn vim_mode() -> (h: Self)
        ensures
            exists|v: Seq<(KeyEventRegister, Action)>| #[trigger] matches_table(v, vim_table()) && h.key_handler.bindings() == to_map(v),
            h.key_handler.pending() == Seq::<KeyInput>::empty(),
            !h.key_handler.captures_on_insert(),
    {
        EditorEventHandler { key_handler: KeyEventHandler::vim_mode() }
    }

    /// A handler with Emacs-like key bindings.
    pub fn emacs_mode() -> (h: Self)
        ensures
            exists|v: Seq<(KeyEventRegister, Action)>| #[trigger] matches_table(v, emacs_table()) && h.key_handler.bindings() == to_map(v),
            h.key_handler.pending() == Seq::<KeyInput>::empty(),
            h.key_handler.captures_on_insert(),
    {
        EditorEventHandler { key_handler: KeyEventHandler::emacs_mode() }
    }

    /// Handles an event.
    pub fn on_event(&mut self, event: Event, state: &mut EditorState)
        ensures
            match event {
                Event::Key(k) => {
                    &&& key_effect(old(self).key_handler.entries(), old(self).key_handler.pending(),
                        old(self).key_handler.captures_on_insert(), key_event_input(k), *old(state), *final(state))
                    &&& final(self).key_handler.entries() == old(self).key_handler.entries()
                },
                Event::Mouse(m) => mouse_effect(m, *old(state), *final(state)) && *final(self) == *old(self),
                Event::Paste(t) => paste_event_effect(t@, *old(state), *final(state)) && *final(self) == *old(self),
                Event::Ignored => *final(state) == *old(state) && *final(self) == *old(self),
            },
    {
        match event {
            Event::Key(k) => self.on_key_event(k, state),
            Event::Mouse(m) => self.on_mouse_event(m, state),
            Event::Paste(text) => self.on_paste_event(text, state),
            Event::Ignored => {},
        }
    }

    /// Handles a key press; a system editor that it requests is opened by
    /// the caller (see `OpenSystemEditor`).
    pub fn on_key_event(&mut self, key: KeyEvent, state: &mut EditorState)
        ensures
            key_effect(old(self).key_handler.entries(), old(self).key_handler.pending(),
                old(self).key_handler.captures_on_insert(), key_event_input(key), *old(state), *final(state)),
            final(self).key_handler.entries() == old(self).key_handler.entries(),
            final(self).key_handler.captures_on_insert() == old(self).key_handler.captures_on_insert(),
            ({
                let k = resolved_key(old(self).key_handler.entries(), old(self).key_handler.pending(), key_event_input(key), old(state).mode);
                &&& looked_up(k, old(state).mode) ==>
                    final(self).key_handler.pending() == lookup_step(old(self).key_handler.entries(), old(self).key_handler.pending(), k, old(state).mode).0
                &&& !looked_up(k, old(state).mode) ==> final(self).key_handler.pending() == old(self).key_handler.pending()
            }),
    {
        self.key_handler.on_event(key.to_key_input(), state);
    }

    /// Handles a mouse event.
    pub fn on_mouse_event(&self, event: MouseEvent, state: &mut EditorState)
        ensures
            mouse_effect(event, *old(state), *final(state)),
    {
        MouseEventHandler::on_event(event, state);
    }

    /// Handles pasted text.
    pub fn on_paste_event(&self, text: String, state: &mut EditorState)
        ensures
            paste_event_effect(text@, *old(state), *final(state)),
    {
        PasteEventHandler::on_event(text, state);
    }
}

/// Handles paste events.
pub struct PasteEventHandler {}

impl PasteEventHandler {
    /// Puts the pasted text into the clipboard and pastes it.
    pub fn on_event(text: String, state: &mut EditorState)
        ensures
            paste_event_effect(text@, *old(state), *final(state)),
    {
        let ghost t = text@;
        let ghost s0 = *state;
        state.clip.set_text(text);
        let ghost mid = *state;
        match state.mode {
            EditorMode::Normal | EditorMode::Insert => Paste.execute(state),
            EditorMode::Visual => PasteOverSelection.execute(state),
            EditorMode::Search => {},
        }
        assert(passes(mid));
        assert(mid == (EditorState { clip: mid.clip, ..s0 }));
    }
}

/// The key input handler of earlier versions; `EditorEventHandler` handles
/// mouse and paste events as well.
pub struct EditorInput {
    event_handler: KeyEventHandler,
}

impl EditorInput {
    /// The key bindings and pending keys of the handler.
    pub closed spec fn handler(&self) -> KeyEventHandler {
        self.event_handler
    }

    /// Handles a key press.
    pub fn on_key(&mut self, key: KeyEvent, state: &mut EditorState)
        ensures
            key_effect(old(self).handler().entries(), old(self).handler().pending(),
                old(self).handler().captures_on_insert(), key_event_input(key), *old(state), *final(state)),
            final(self).handler().entries() == old(self).handler().entries(),
    {
        self.event_handler.on_event(key.to_key_input(), state);
    }
}

} // verus!
