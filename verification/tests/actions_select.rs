use edtui::actions::DeleteInnerBetween;
use edtui::actions::DeleteInnerWord;
use edtui::mode::EditorMode;
use edtui::state::EditorState;
use edtui::index::Index2;
use edtui::lines::Lines;
use edtui::actions::MoveDown;
use edtui::actions::MoveForward;
use edtui::actions::MoveUp;
use edtui::actions::SelectInnerBetween;
use edtui::actions::SelectInnerBigWord;
use edtui::actions::SelectInnerWord;
use edtui::actions::SelectLine;
use edtui::selection::Selection;

fn test_state() -> EditorState {
    EditorState::new(Lines::from("Hello World!\n\n123."))
}

#[test]
fn test_select_line() {
    let mut state = test_state();

    state.cursor = Index2::new(0, 4);
    SelectLine.execute(&mut state);

    assert!(state.selection.is_some());
    let selection = state.selection.as_ref().unwrap();
    assert!(selection.line_mode);
    assert!(selection.contains_row(0));
    assert_eq!(state.mode, EditorMode::Visual);
    assert_eq!(state.cursor, Index2::new(0, 4));
}

#[test]
fn test_select_line_with_motion() {
    let mut state = EditorState::new(Lines::from("First line\nSecond line\nThird line"));

    // Start on line 1, select line
    state.cursor = Index2::new(1, 5);
    SelectLine.execute(&mut state);

    // Should have line 1 selected
    let want = Some(Selection::new(Index2::new(1, 0), Index2::new(1, 10)).line_mode());
    assert_eq!(state.selection, want);

    // Move up to line 0 - should extend selection to cover both lines
    state.mode = EditorMode::Visual;
    MoveUp(1).execute(&mut state);

    // Should now select from line 0 to line 1 (complete lines)
    assert!(state.selection.is_some());
    let selection = state.selection.as_ref().unwrap();
    assert!(selection.contains_row(0));
    assert!(selection.contains_row(1));
    assert_eq!(state.cursor.row, 0);
}

#[test]
fn test_select_line_with_downward_motion() {
    let mut state = EditorState::new(Lines::from("First line\nSecond line\nThird line"));

    // Start on line 1, select line
    state.cursor = Index2::new(1, 5);
    SelectLine.execute(&mut state);

    // Should have line 1 selected
    assert!(state.selection.is_some());
    let selection = state.selection.as_ref().unwrap();
    assert!(selection.line_mode);
    assert!(selection.contains_row(1));

    // Move down to line 2 - should extend selection to cover both lines
    state.mode = EditorMode::Visual;
    MoveDown(1).execute(&mut state);

    // Should now select from line 1 to line 2 (complete lines)
    // Should select from line 1 to line 2
    assert!(state.selection.is_some());
    let selection = state.selection.as_ref().unwrap();
    assert!(selection.contains_row(1));
    assert!(selection.contains_row(2));
    assert_eq!(state.cursor.row, 2);
}

#[test]
fn test_select_line_with_horizontal_motion() {
    let mut state = EditorState::new(Lines::from("First line\nSecond line\nThird line"));

    // Start on line 1, select line
    state.cursor = Index2::new(1, 5);
    SelectLine.execute(&mut state);

    // Should have line 1 selected
    assert!(state.selection.is_some());
    let selection = state.selection.as_ref().unwrap();
    assert!(selection.line_mode);
    assert!(selection.contains_row(1));

    // Move forward horizontally - should still select the same complete line
    state.mode = EditorMode::Visual;
    MoveForward(3).execute(&mut state);

    // Should still select the same complete line (line mode ignores horizontal movement within same line)
    assert!(state.selection.is_some());
    let selection = state.selection.as_ref().unwrap();
    assert!(selection.contains_row(1));
    assert!(!selection.contains_row(0));
    assert!(!selection.contains_row(2));
    assert_eq!(state.cursor.row, 1);
    assert_eq!(state.cursor.col, 8); // cursor moved but selection stays on complete line
}

#[test]
fn test_select_line_multiple_upward_movements() {
    let mut state = EditorState::new(Lines::from("Line 0\nLine 1\nLine 2\nLine 3"));

    // Start on line 2, select line
    state.cursor = Index2::new(2, 3);
    SelectLine.execute(&mut state);

    // Should have line 2 selected
    assert!(state.selection.is_some());
    let selection = state.selection.as_ref().unwrap();
    assert!(selection.line_mode);
    assert!(selection.contains_row(2));

    // Move up to line 1 - should extend selection
    state.mode = EditorMode::Visual;
    MoveUp(1).execute(&mut state);

    // Should select from line 1 to line 2
    assert!(state.selection.is_some());
    let selection = state.selection.as_ref().unwrap();
    assert!(selection.contains_row(1));
    assert!(selection.contains_row(2));
    assert_eq!(state.cursor.row, 1);

    // Move up again to line 0 - should extend selection further
    MoveUp(1).execute(&mut state);

    // Should now select from line 0 to line 2 (original anchor preserved)
    assert!(state.selection.is_some());
    let selection = state.selection.as_ref().unwrap();
    assert!(selection.contains_row(0));
    assert!(selection.contains_row(1));
    assert!(selection.contains_row(2));
    assert_eq!(state.cursor.row, 0);
}

#[test]
fn test_select_line_multiple_downward_movements() {
    let mut state = EditorState::new(Lines::from("Line 0\nLine 1\nLine 2\nLine 3"));

    // Start on line 1, select line
    state.cursor = Index2::new(1, 3);
    SelectLine.execute(&mut state);

    // Should have line 1 selected
    assert!(state.selection.is_some());
    let selection = state.selection.as_ref().unwrap();
    assert!(selection.line_mode);
    assert!(selection.contains_row(1));

    // Move down to line 2 - should extend selection
    state.mode = EditorMode::Visual;
    MoveDown(1).execute(&mut state);

    // Should select from line 1 to line 2
    assert!(state.selection.is_some());
    let selection = state.selection.as_ref().unwrap();
    assert!(selection.contains_row(1));
    assert!(selection.contains_row(2));
    assert_eq!(state.cursor.row, 2);

    // Move down again to line 3 - should extend selection further
    MoveDown(1).execute(&mut state);

    // Should now select from line 1 to line 3 (original anchor preserved)
    assert!(state.selection.is_some());
    let selection = state.selection.as_ref().unwrap();
    assert!(selection.contains_row(1));
    assert!(selection.contains_row(2));
    assert!(selection.contains_row(3));
    assert_eq!(state.cursor.row, 3);
}

#[test]
fn test_select_line_mixed_movements() {
    let mut state = EditorState::new(Lines::from("Line 0\nLine 1\nLine 2\nLine 3\nLine 4"));

    // Start on line 2, select line
    state.cursor = Index2::new(2, 3);
    SelectLine.execute(&mut state);

    // Move up to line 1
    // Move up to line 1 - should extend selection to cover both lines
    state.mode = EditorMode::Visual;
    MoveUp(1).execute(&mut state);

    // Should select from line 1 to line 2 (complete lines)
    assert!(state.selection.is_some());
    let selection = state.selection.as_ref().unwrap();
    assert!(selection.contains_row(1));
    assert!(selection.contains_row(2));
    assert!(!selection.contains_row(0));
    assert!(!selection.contains_row(3));

    // Now move back down to line 2 - should shrink back to original
    MoveDown(1).execute(&mut state);

    // Should shrink back to just line 2 (original anchor)
    assert!(state.selection.is_some());
    let selection = state.selection.as_ref().unwrap();
    assert!(selection.contains_row(2));
    assert!(!selection.contains_row(1));
    assert!(!selection.contains_row(3));
    assert_eq!(state.cursor.row, 2);

    // Now move down to line 3 - should extend downward from anchor
    MoveDown(1).execute(&mut state);

    // Should select from line 2 to line 3
    assert!(state.selection.is_some());
    let selection = state.selection.as_ref().unwrap();
    assert!(selection.contains_row(2));
    assert!(selection.contains_row(3));
    assert!(!selection.contains_row(1));
    assert_eq!(state.cursor.row, 3);
}

#[test]
fn test_select_inner_between() {
    let lines = Lines::from("\"Hello\" World");
    let mut state = EditorState::new(lines);
    state.cursor = Index2::new(0, 1);

    SelectInnerBetween::new('"', '"').execute(&mut state);

    let want = Selection::new(Index2::new(0, 1), Index2::new(0, 5));
    assert_eq!(state.selection.unwrap(), want);
}

#[test]
fn test_delete_inner_between_stays_normal_mode() {
    let mut state = EditorState::new(Lines::from("\"Hello\" World"));
    state.cursor = Index2::new(0, 1);

    DeleteInnerBetween::new('"', '"').execute(&mut state);

    assert_eq!(state.lines.to_string(), "\"\" World");
    assert_eq!(state.cursor, Index2::new(0, 1));
    assert_eq!(state.mode, EditorMode::Normal);
}

#[test]
fn test_select_inner_word() {
    let lines = Lines::from("Hello World");
    let mut state = EditorState::new(lines);
    state.cursor = Index2::new(0, 1);

    SelectInnerWord.execute(&mut state);

    let want = Selection::new(Index2::new(0, 0), Index2::new(0, 4));
    assert_eq!(state.selection.unwrap(), want);
}

#[test]
fn test_delete_inner_word_stays_normal_mode() {
    let mut state = EditorState::new(Lines::from("Hello World"));
    state.cursor = Index2::new(0, 1);

    DeleteInnerWord.execute(&mut state);

    assert_eq!(state.lines.to_string(), " World");
    assert_eq!(state.cursor, Index2::new(0, 0));
    assert_eq!(state.mode, EditorMode::Normal);
}

#[test]
fn test_select_inner_word_includes_underscores() {
    // Underscore is a word character, so `viw` on the `B` of `BY` selects
    // the whole identifier (matching Vim/nvim).
    let mut state = EditorState::new(Lines::from("ORDER_BY_FIELD"));
    state.cursor = Index2::new(0, 6);

    SelectInnerWord.execute(&mut state);

    let want = Selection::new(Index2::new(0, 0), Index2::new(0, 13));
    assert_eq!(state.selection.unwrap(), want);
}

#[test]
fn test_select_inner_word_stops_at_hyphen() {
    // A hyphen is punctuation, so `viw` on the `B` of `BY` selects only
    // `BY` (matching Vim/nvim).
    let mut state = EditorState::new(Lines::from("ORDER-BY"));
    state.cursor = Index2::new(0, 6);

    SelectInnerWord.execute(&mut state);

    let want = Selection::new(Index2::new(0, 6), Index2::new(0, 7));
    assert_eq!(state.selection.unwrap(), want);
}

#[test]
fn test_select_inner_big_word() {
    let mut state = EditorState::new(Lines::from("foo.bar baz"));
    state.cursor = Index2::new(0, 1);

    SelectInnerBigWord.execute(&mut state);

    let want = Selection::new(Index2::new(0, 0), Index2::new(0, 6));
    assert_eq!(state.selection.unwrap(), want);
}
