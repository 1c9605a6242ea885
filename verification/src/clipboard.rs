//! The editor's clipboard.
//!
//! By default the editor uses the system clipboard (through `arboard`) and
//! falls back to an internal clipboard, which only copies and pastes within
//! the editor. Any type that implements [`ClipboardTrait`] can serve as the
//! clipboard. What a clipboard other than the internal one hands back is not
//! known to the library; the contracts below say what holds of the internal
//! one.
use vstd::prelude::*;
use arboard::Clipboard as SystemClipboard;
use arboard::Error as SystemClipboardError;

verus! {

/// Clipboard operations, for clipboards that users provide.
pub trait ClipboardTrait {
    /// Sets text to the clipboard.
    fn set_text(&mut self, text: String);

    /// Retrieves text from the clipboard.
    fn get_text(&mut self) -> String;
}

/// A clipboard that keeps its text inside the editor.
#[derive(Clone, Debug)]
pub struct InternalClipboard {
    text: String,
}

impl InternalClipboard {
    /// The text the clipboard holds.
    pub closed spec fn contents(&self) -> Seq<char> {
        self.text@
    }

    /// An empty clipboard.
    pub fn empty() -> (c: Self)
        ensures
            c.contents() == Seq::<char>::empty(),
    {
        InternalClipboard { text: String::new() }
    }
}

impl Default for InternalClipboard {
    fn default() -> (c: Self)
        ensures
            c.contents() == Seq::<char>::empty(),
    {
        InternalClipboard::empty()
    }
}

impl ClipboardTrait for InternalClipboard {
    fn set_text(&mut self, text: String)
        ensures
            final(self).contents() == text@,
    {
        self.text = text;
    }

    fn get_text(&mut self) -> (s: String)
        ensures
            s@ == old(self).contents(),
            final(self).contents() == old(self).contents(),
    {
        self.text.clone()
    }
}

/// The storage behind a [`Clipboard`].
enum Storage {
    Internal(InternalClipboard),
    Shared(Box<dyn ClipboardTrait>),
}

/// The clipboard of an editor state.
pub struct Clipboard {
    storage: Storage,
}

impl Clipboard {
    /// The clipboard keeps its text inside the editor.
    pub closed spec fn is_internal(&self) -> bool {
        self.storage is Internal
    }

    /// The text an internal clipboard holds.
    pub closed spec fn contents(&self) -> Seq<char> {
        match self.storage {
            Storage::Internal(c) => c.contents(),
            Storage::Shared(_) => Seq::empty(),
        }
    }

    /// `self` is `old` after setting `text`: an internal clipboard then
    /// holds the text.
    pub open spec fn after_set(self, old: Clipboard, text: Seq<char>) -> bool {
        &&& self.is_internal() == old.is_internal()
        &&& self.is_internal() ==> self.contents() == text
    }

    /// `self` is `old` after reading `got` from it: an internal clipboard
    /// hands back what it holds and stays as it was.
    pub open spec fn after_get(self, old: Clipboard, got: Seq<char>) -> bool {
        &&& self.is_internal() == old.is_internal()
        &&& old.is_internal() ==> self == old && got == old.contents()
    }

    /// A clipboard backed by the given implementation.
    pub fn new<C: ClipboardTrait + 'static>(clipboard: C) -> (c: Self)
        ensures
            !c.is_internal(),
    {
        Clipboard { storage: Storage::Shared(Box::new(clipboard)) }
    }

    /// A clipboard that keeps its text inside the editor.
    pub fn internal(clipboard: InternalClipboard) -> (c: Self)
        ensures
            c.is_internal(),
            c.contents() == clipboard.contents(),
    {
        Clipboard { storage: Storage::Internal(clipboard) }
    }

    /// Replaces the text of the clipboard.
    pub fn set_text(&mut self, text: String)
        ensures
            final(self).after_set(*old(self), text@),
    {
        match &mut self.storage {
            Storage::Internal(c) => {
                c.text = text;
            },
            Storage::Shared(c) => {
                c.set_text(text);
            },
        }
    }

    /// Returns the text of the clipboard.
    pub fn get_text(&mut self) -> (s: String)
        ensures
            final(self).after_get(*old(self), s@),
    {
        match &mut self.storage {
            Storage::Internal(c) => c.text.clone(),
            Storage::Shared(c) => c.get_text(),
        }
    }
}

impl Default for Clipboard {
    /// The system clipboard, or the internal one where the system clipboard
    /// cannot be opened.
    fn default() -> (c: Self)
        ensures
            c.is_internal() ==> c.contents() == Seq::<char>::empty(),
    {
        match ArboardClipboard::new() {
            Ok(system) => Clipboard::new(system),
            Err(_) => Clipboard::internal(InternalClipboard::empty()),
        }
    }
}

impl ClipboardTrait for Clipboard {
    fn set_text(&mut self, text: String)
        ensures
            final(self).after_set(*old(self), text@),
    {
        Clipboard::set_text(self, text);
    }

    fn get_text(&mut self) -> (s: String)
        ensures
            final(self).after_get(*old(self), s@),
    {
        Clipboard::get_text(self)
    }
}

#[verifier::external_type_specification]
#[verifier::external_body]
pub struct ExSystemClipboard(SystemClipboard);

#[verifier::external_type_specification]
#[verifier::external_body]
pub struct ExSystemClipboardError(SystemClipboardError);

/// `arboard::Clipboard::new`: opens the system clipboard, which may fail.
#[verifier::external_body]
fn open_system_clipboard() -> (r: Result<SystemClipboard, SystemClipboardError>) {
    SystemClipboard::new()
}

/// `arboard::Clipboard::set_text`; a failure is ignored.
#[verifier::external_body]
fn system_set_text(clipboard: &mut SystemClipboard, text: String) {
    let _ = clipboard.set_text(text);
}

/// `arboard::Clipboard::get_text`; a failure reads as the empty string.
#[verifier::external_body]
fn system_get_text(clipboard: &mut SystemClipboard) -> (s: String) {
    clipboard.get_text().unwrap_or_default()
}

/// Why a clipboard could not be opened.
#[derive(Clone, Copy, Debug, PartialEq, Eq, Structural)]
pub enum ClipboardError {
    /// The platform's clipboard is not available.
    Unavailable,
}

/// The system clipboard.
pub struct ArboardClipboard {
    inner: SystemClipboard,
}

impl ArboardClipboard {
    /// Opens the system clipboard.
    ///
    /// ## Errors
    /// - Platform not supported.
    pub fn new() -> (r: Result<Self, ClipboardError>)
        ensures
            r matches Err(e) ==> e == ClipboardError::Unavailable,
    {
        match open_system_clipboard() {
            Ok(inner) => Ok(ArboardClipboard { inner }),
            Err(_) => Err(ClipboardError::Unavailable),
        }
    }
}

impl ClipboardTrait for ArboardClipboard {
    fn set_text(&mut self, text: String) {
        system_set_text(&mut self.inner, text);
    }

    fn get_text(&mut self) -> String {
        system_get_text(&mut self.inner)
    }
}

} // verus!
