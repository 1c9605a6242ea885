//! Editor modes.
use vstd::prelude::*;
use vstd::string::StringExecFns;

verus! {

/// The editor mode.
#[derive(Debug, Clone, Copy, PartialEq, Eq, Structural, Hash)]
pub enum EditorMode {
    Normal,
    Insert,
    Visual,
    Search,
}

/// The name under which a mode is shown.
pub open spec fn mode_name(mode: EditorMode) -> Seq<char> {
    match mode {
        EditorMode::Normal => "Normal"@,
        EditorMode::Insert => "Insert"@,
        EditorMode::Visual => "Visual"@,
        EditorMode::Search => "Search"@,
    }
}

impl EditorMode {
    /// Returns the name of the mode as a string.
    pub fn name(&self) -> (s: String)
        ensures
            s@ == mode_name(*self),
    {
        match self {
            EditorMode::Normal => String::from_str("Normal"),
            EditorMode::Insert => String::from_str("Insert"),
            EditorMode::Visual => String::from_str("Visual"),
            EditorMode::Search => String::from_str("Search"),
        }
    }
}

impl Default for EditorMode {
    fn default() -> (m: Self)
        ensures
            m == EditorMode::Normal,
    {
        EditorMode::Normal
    }
}

/// The mode of a text buffer (the buffer-level counterpart of [`EditorMode`]).
#[derive(Debug, Clone, Copy, PartialEq, Eq, Structural, Hash)]
pub enum Mode {
    Normal,
    Insert,
    Visual,
}

/// The name under which a buffer mode is shown.
pub open spec fn buffer_mode_name(mode: Mode) -> Seq<char> {
    match mode {
        Mode::Normal => "Normal"@,
        Mode::Insert => "Insert"@,
        Mode::Visual => "Visual"@,
    }
}

impl Mode {
    /// Returns the name of the mode as a string.
    pub fn name(&self) -> (s: String)
        ensures
            s@ == buffer_mode_name(*self),
    {
        match self {
            Mode::Normal => String::from_str("Normal"),
            Mode::Insert => String::from_str("Insert"),
            Mode::Visual => String::from_str("Visual"),
        }
    }
}

} // verus!
