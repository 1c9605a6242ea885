use edtui::actions::CopySelection;
use edtui::mode::EditorMode;
use edtui::state::EditorState;
use edtui::index::Index2;
use edtui::clipboard::InternalClipboard;
use edtui::lines::Lines;
use edtui::actions::Paste;
use edtui::actions::PasteBefore;
use edtui::actions::PasteOverSelection;
use edtui::selection::Selection;
use edtui::actions::Undo;

fn test_state() -> EditorState {
    let mut state = EditorState::new(Lines::from("Hello World!\n\n123."));
    state.set_clipboard(InternalClipboard::default());
    state
}

#[test]
fn test_copy_paste() {
    let mut state = test_state();
    let selection = Selection::new(Index2::new(0, 0), Index2::new(0, 2));
    state.selection = Some(selection);

    CopySelection.execute(&mut state);
    Paste.execute(&mut state);

    assert_eq!(state.cursor, Index2::new(0, 3));
    assert_eq!(state.lines, Lines::from("HHelello World!\n\n123."));
}

#[test]
fn test_paste_before_characterwise() {
    let mut state = test_state();
    state.selection = Some(Selection::new(Index2::new(0, 0), Index2::new(0, 2)));

    CopySelection.execute(&mut state);
    PasteBefore.execute(&mut state);

    // `P` inserts in front of the cursor, landing on the last pasted char.
    assert_eq!(state.cursor, Index2::new(0, 2));
    assert_eq!(state.lines, Lines::from("HelHello World!\n\n123."));
}

#[test]
fn test_paste_before_linewise() {
    let mut state = test_state();
    state.cursor = Index2::new(2, 1);
    state.clip.set_text(String::from("\nnew line"));

    PasteBefore.execute(&mut state);

    // Linewise `P` opens a new line above the current row.
    assert_eq!(state.cursor, Index2::new(2, 7));
    assert_eq!(state.lines, Lines::from("Hello World!\n\nnew line\n123."));
}

#[test]
fn test_paste_with_newline_into_empty_buffer() {
    let mut state = EditorState::default();
    state.set_clipboard(InternalClipboard::default());
    state.clip.set_text("\ntext".to_string());

    Paste.execute(&mut state);

    assert_eq!(state.cursor, Index2::new(0, 3));
    assert_eq!(state.lines, Lines::from("text"));
}

#[test]
fn test_paste_over_selection() {
    let mut state = test_state();
    state.selection = Some(Selection::new(Index2::new(0, 6), Index2::new(0, 10)));
    state.clip.set_text(String::from("Earth"));
    state.mode = EditorMode::Visual;

    PasteOverSelection.execute(&mut state);

    assert_eq!(state.lines, Lines::from("Hello Earth!\n\n123."));
    assert_eq!(state.cursor, Index2::new(0, 10));
    assert_eq!(state.mode, EditorMode::Visual);

    Undo.execute(&mut state);

    assert_eq!(state.lines, Lines::from("Hello World!\n\n123."));
    assert_eq!(state.mode, EditorMode::Visual);
}
