use edtui::actions::Chainable;
use edtui::actions::Action;
use edtui::mode::EditorMode;
use edtui::state::EditorState;
use edtui::clipboard::InternalClipboard;
use edtui::lines::Lines;
use edtui::actions::MoveToEndOfLine;
use edtui::actions::SwitchMode;

fn test_state() -> EditorState {
    let mut state = EditorState::new(Lines::from("Hello World!\n\n123."));
    state.set_clipboard(InternalClipboard::default());
    state
}

#[test]
fn test_switch_mode() {
    let mut state = test_state();
    assert_eq!(state.mode, EditorMode::Normal);

    SwitchMode(EditorMode::Insert).execute(&mut state);
    assert_eq!(state.mode, EditorMode::Insert);

    SwitchMode(EditorMode::Visual).execute(&mut state);
    assert_eq!(state.mode, EditorMode::Visual);
}

#[test]
fn test_chainable_actions() {
    let mut state = test_state();
    assert_eq!(state.mode, EditorMode::Normal);

    // Test the new chainable syntax: SwitchMode().chain().chain()
    let action = Action::SwitchMode(SwitchMode(EditorMode::Insert))
        .chain(Action::MoveToEndOfLine(MoveToEndOfLine()))
        .chain(Action::SwitchMode(SwitchMode(EditorMode::Visual)));

    action.execute(&mut state);

    // Verify the final state after chaining
    assert_eq!(state.mode, EditorMode::Visual);
    assert!(state.selection.is_some());
}
