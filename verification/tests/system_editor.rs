use edtui::actions::system_editor::{apply_edit, is_pending, take_request};
use edtui::actions::OpenSystemEditor;
use edtui::index::Index2;
use edtui::lines::Lines;
use edtui::selection::Selection;
use edtui::state::EditorState;

#[test]
fn system_editor_round_trip() {
    let mut state = EditorState::new(Lines::from("one\ntwo"));
    state.cursor = Index2::new(1, 2);
    assert_eq!(take_request(&mut state), None);

    OpenSystemEditor.execute(&mut state);
    assert!(is_pending(&state));
    assert_eq!(take_request(&mut state), Some(String::from("one\ntwo")));
    assert!(!is_pending(&state));

    state.selection = Some(Selection::new(Index2::new(0, 0), Index2::new(0, 1)));
    apply_edit(&mut state, "edited\ntext\n\n");
    assert_eq!(state.lines, Lines::from("edited\ntext"));
    assert_eq!(state.cursor, Index2::new(0, 0));
    assert_eq!(state.selection, None);
}

#[test]
fn edited_text_splits_into_rows() {
    let mut state = EditorState::new(Lines::from("x"));
    apply_edit(&mut state, "a\r\n\r\nb\r");
    assert_eq!(state.num_rows(), 3);
    assert_eq!(state.row(0), Some(vec!['a']));
    assert_eq!(state.row(1), Some(vec![]));
    assert_eq!(state.row(2), Some(vec!['b', '\r']));

    apply_edit(&mut state, "");
    assert_eq!(state.num_rows(), 0);
}
