use edtui::state::EditorState;
use edtui::index::Index2;
use edtui::lines::Lines;
use edtui::actions::MoveBackward;
use edtui::actions::MoveDown;
use edtui::actions::MoveForward;
use edtui::actions::MoveToEndOfLine;
use edtui::actions::MoveToFirst;
use edtui::actions::MoveToStartOfLine;
use edtui::actions::MoveUp;
use edtui::actions::MoveWordBackward;
use edtui::actions::MoveWordForward;
use edtui::actions::MoveWordForwardToEndOfWord;

fn test_state() -> EditorState {
    EditorState::new(Lines::from("Hello World!\n\n123."))
}

#[test]
fn test_move_forward() {
    let mut state = test_state();

    MoveForward(1).execute(&mut state);
    assert_eq!(state.cursor, Index2::new(0, 1));

    MoveForward(10).execute(&mut state);
    assert_eq!(state.cursor, Index2::new(0, 11));

    MoveForward(1).execute(&mut state);
    assert_eq!(state.cursor, Index2::new(0, 11));
}

#[test]
fn test_move_backward() {
    let mut state = test_state();
    state.cursor = Index2::new(0, 11);

    MoveBackward(1).execute(&mut state);
    assert_eq!(state.cursor, Index2::new(0, 10));

    MoveBackward(10).execute(&mut state);
    assert_eq!(state.cursor, Index2::new(0, 0));

    MoveBackward(1).execute(&mut state);
    assert_eq!(state.cursor, Index2::new(0, 0));
}

#[test]
fn test_move_down() {
    let mut state = test_state();
    state.cursor = Index2::new(0, 6);

    MoveDown(1).execute(&mut state);
    assert_eq!(state.cursor, Index2::new(1, 6));

    MoveDown(1).execute(&mut state);
    assert_eq!(state.cursor, Index2::new(2, 6));

    MoveDown(1).execute(&mut state);
    assert_eq!(state.cursor, Index2::new(2, 6));
}

#[test]
fn test_move_up() {
    let mut state = test_state();
    state.cursor = Index2::new(2, 2);

    MoveUp(1).execute(&mut state);
    assert_eq!(state.cursor, Index2::new(1, 2));

    MoveUp(1).execute(&mut state);
    assert_eq!(state.cursor, Index2::new(0, 2));

    MoveUp(1).execute(&mut state);
    assert_eq!(state.cursor, Index2::new(0, 2));
}

#[test]
fn test_move_word_forward() {
    let mut state = test_state();

    MoveWordForward(1).execute(&mut state);
    assert_eq!(state.cursor, Index2::new(0, 6));

    MoveWordForward(1).execute(&mut state);
    assert_eq!(state.cursor, Index2::new(0, 11));

    MoveWordForward(1).execute(&mut state);
    assert_eq!(state.cursor, Index2::new(1, 0));

    MoveWordForward(1).execute(&mut state);
    assert_eq!(state.cursor, Index2::new(2, 0));

    MoveWordForward(1).execute(&mut state);
    assert_eq!(state.cursor, Index2::new(2, 3));
}

#[test]
fn test_move_word_forward_out_of_bounds() {
    let mut state = test_state();

    state.cursor = Index2::new(0, 99);
    MoveWordForward(1).execute(&mut state);
    assert_eq!(state.cursor, Index2::new(1, 0));
}

#[test]
fn test_move_word_forward_to_end_of_word() {
    let mut state = test_state();

    MoveWordForwardToEndOfWord(1).execute(&mut state);
    assert_eq!(state.cursor, Index2::new(0, 4));

    MoveWordForwardToEndOfWord(1).execute(&mut state);
    assert_eq!(state.cursor, Index2::new(0, 10));

    MoveWordForwardToEndOfWord(1).execute(&mut state);
    assert_eq!(state.cursor, Index2::new(0, 11));

    MoveWordForwardToEndOfWord(1).execute(&mut state);
    assert_eq!(state.cursor, Index2::new(2, 2));

    MoveWordForwardToEndOfWord(1).execute(&mut state);
    assert_eq!(state.cursor, Index2::new(2, 3));

    MoveWordForwardToEndOfWord(1).execute(&mut state);
    assert_eq!(state.cursor, Index2::new(2, 3));
}

#[test]
fn test_move_word_backward() {
    let mut state = test_state();
    state.cursor = Index2::new(2, 3);

    MoveWordBackward(1).execute(&mut state);
    assert_eq!(state.cursor, Index2::new(2, 0));

    MoveWordBackward(1).execute(&mut state);
    assert_eq!(state.cursor, Index2::new(1, 0));

    MoveWordBackward(1).execute(&mut state);
    assert_eq!(state.cursor, Index2::new(0, 11));

    MoveWordBackward(1).execute(&mut state);
    assert_eq!(state.cursor, Index2::new(0, 6));

    MoveWordBackward(1).execute(&mut state);
    assert_eq!(state.cursor, Index2::new(0, 0));

    MoveWordBackward(1).execute(&mut state);
    assert_eq!(state.cursor, Index2::new(0, 0));
}

#[test]
fn test_move_to_start() {
    let mut state = test_state();
    state.cursor = Index2::new(0, 2);

    MoveToStartOfLine().execute(&mut state);
    assert_eq!(state.cursor, Index2::new(0, 0));
}

#[test]
fn test_move_to_end() {
    let mut state = test_state();
    state.cursor = Index2::new(0, 2);

    MoveToEndOfLine().execute(&mut state);
    assert_eq!(state.cursor, Index2::new(0, 11));
}

#[test]
fn test_move_to_first_non_blank() {
    let mut state = EditorState::new(Lines::from("  Hello\n   \nx"));
    state.cursor = Index2::new(0, 5);
    MoveToFirst().execute(&mut state);
    assert_eq!(state.cursor, Index2::new(0, 2));

    // a blank line: column zero
    state.cursor = Index2::new(1, 2);
    MoveToFirst().execute(&mut state);
    assert_eq!(state.cursor, Index2::new(1, 0));
}
