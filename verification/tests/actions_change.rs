use edtui::actions::ChangeBigWord;
use edtui::actions::ChangeInnerBetween;
use edtui::actions::ChangeInnerBigWord;
use edtui::actions::ChangeInnerWord;
use edtui::actions::ChangeWord;
use edtui::mode::EditorMode;
use edtui::state::EditorState;
use edtui::index::Index2;
use edtui::lines::Lines;

#[test]
fn test_change_word_enters_insert_mode() {
    let mut state = EditorState::new(Lines::from("Hello World"));
    state.cursor = Index2::new(0, 0);

    ChangeWord(1).execute(&mut state);
    assert_eq!(state.lines.to_string(), " World");
    assert_eq!(state.cursor, Index2::new(0, 0));
    assert_eq!(state.mode, EditorMode::Insert);
}

#[test]
fn test_change_big_word_enters_insert_mode() {
    let mut state = EditorState::new(Lines::from("foo.bar baz"));
    state.cursor = Index2::new(0, 0);

    ChangeBigWord(1).execute(&mut state);
    // `cW` changes the whole WORD but keeps the trailing whitespace.
    assert_eq!(state.lines.to_string(), " baz");
    assert_eq!(state.mode, EditorMode::Insert);
}

#[test]
fn test_change_inner_word() {
    let mut state = EditorState::new(Lines::from("Hello World"));
    state.cursor = Index2::new(0, 1);

    ChangeInnerWord.execute(&mut state);

    assert_eq!(state.lines.to_string(), " World");
    assert_eq!(state.cursor, Index2::new(0, 0));
    assert_eq!(state.mode, EditorMode::Insert);
}

#[test]
fn test_change_inner_word_with_punctuation() {
    let mut state = EditorState::new(Lines::from("foo.bar baz"));
    state.cursor = Index2::new(0, 0);

    ChangeInnerWord.execute(&mut state);

    assert_eq!(state.lines.to_string(), ".bar baz");
    assert_eq!(state.cursor, Index2::new(0, 0));
}

#[test]
fn test_change_inner_big_word() {
    let mut state = EditorState::new(Lines::from("foo.bar baz"));
    state.cursor = Index2::new(0, 1);

    ChangeInnerBigWord.execute(&mut state);

    assert_eq!(state.lines.to_string(), " baz");
    assert_eq!(state.cursor, Index2::new(0, 0));
}

#[test]
fn test_change_inner_big_word_on_punctuation() {
    let mut state = EditorState::new(Lines::from("foo.bar baz"));
    state.cursor = Index2::new(0, 3);

    ChangeInnerBigWord.execute(&mut state);

    assert_eq!(state.lines.to_string(), " baz");
    assert_eq!(state.cursor, Index2::new(0, 0));
}

#[test]
fn test_change_inner_between_enters_insert_mode() {
    let mut state = EditorState::new(Lines::from("\"Hello\" World"));
    state.cursor = Index2::new(0, 1);

    ChangeInnerBetween::new('"', '"').execute(&mut state);

    assert_eq!(state.lines.to_string(), "\"\" World");
    assert_eq!(state.cursor, Index2::new(0, 1));
    assert_eq!(state.mode, EditorMode::Insert);
}
