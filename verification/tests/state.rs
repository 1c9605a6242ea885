use edtui::state::EditorState;
use edtui::index::Index2;
use edtui::actions::InsertChar;
use edtui::clipboard::InternalClipboard;
use edtui::actions::LineBreak;
use edtui::lines::Lines;
use edtui::actions::Paste;

#[test]
fn test_single_line_mode_blocks_line_break() {
    let mut state = EditorState::new(Lines::from("Hello World"));
    state.set_single_line(true);
    state.cursor = Index2::new(0, 5);

    LineBreak(1).execute(&mut state);

    // Line break should be blocked
    assert_eq!(state.lines, Lines::from("Hello World"));
    assert_eq!(state.cursor, Index2::new(0, 5));
}

#[test]
fn test_single_line_mode_blocks_insert_newline_char() {
    let mut state = EditorState::new(Lines::from("Hello"));
    state.set_single_line(true);
    state.cursor = Index2::new(0, 5);

    InsertChar('\n').execute(&mut state);

    // Newline char should be blocked
    assert_eq!(state.lines, Lines::from("Hello"));
}

#[test]
fn test_single_line_mode_paste_replaces_newlines() {
    let mut state = EditorState::new(Lines::from("Hello"));
    state.set_clipboard(InternalClipboard::default());
    state.set_single_line(true);
    state.cursor = Index2::new(0, 5);

    // Paste text with newlines
    state.clip.set_text("Line1\nLine2\nLine3".to_string());
    Paste.execute(&mut state);

    // Newlines should be replaced with spaces
    assert_eq!(state.lines, Lines::from("HelloLine1 Line2 Line3"));
}
