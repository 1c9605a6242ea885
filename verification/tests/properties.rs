use edtui::actions::delete::delete_char;
use edtui::buffer::insert_char;
use edtui::actions::{Action, DeleteLine, InsertChar, MoveForward, Redo, SwitchMode, Undo};
use edtui::clipboard::{Clipboard, InternalClipboard};
use edtui::events::input::{KeyCode, KeyInput, Modifiers};
use edtui::events::key::{KeyEventHandler, KeyEventRegister};
use edtui::index::Index2;
use edtui::lines::Lines;
use edtui::mode::EditorMode;
use edtui::search::SearchState;
use edtui::selection::Selection;
use edtui::state::EditorState;
use edtui::view::{LineWrapper, ViewState};

#[test]
fn undo_reverts_an_edit() {
    let mut state = EditorState::new(Lines::from("one\ntwo"));
    state.cursor = Index2::new(1, 1);
    DeleteLine(1).execute(&mut state);
    assert_eq!(state.lines, Lines::from("one"));

    Undo.execute(&mut state);
    assert_eq!(state.lines, Lines::from("one\ntwo"));
    assert_eq!(state.cursor, Index2::new(1, 1));
}

#[test]
fn redo_reverts_undo_and_undo_reverts_redo() {
    let mut state = EditorState::new(Lines::from("abc"));
    SwitchMode(EditorMode::Insert).execute(&mut state);
    InsertChar('x').execute(&mut state);
    SwitchMode(EditorMode::Normal).execute(&mut state);
    let edited = state.lines.clone();
    let edited_cursor = state.cursor;

    Undo.execute(&mut state);
    assert_eq!(state.lines, Lines::from("abc"));
    let undone_cursor = state.cursor;

    Redo.execute(&mut state);
    assert_eq!(state.lines, edited);
    assert_eq!(state.cursor, edited_cursor);

    Undo.execute(&mut state);
    assert_eq!(state.lines, Lines::from("abc"));
    assert_eq!(state.cursor, undone_cursor);
}

#[test]
fn undo_without_history_changes_nothing() {
    let mut state = EditorState::new(Lines::from("abc"));
    state.cursor = Index2::new(0, 2);
    Undo.execute(&mut state);
    assert_eq!(state.lines, Lines::from("abc"));
    assert_eq!(state.cursor, Index2::new(0, 2));
}

#[test]
fn internal_clipboard_gives_back_what_was_set() {
    let mut clip = Clipboard::internal(InternalClipboard::default());
    clip.set_text(String::from("hello\nworld"));
    assert_eq!(clip.get_text(), "hello\nworld");
    assert_eq!(clip.get_text(), "hello\nworld");
}

#[test]
fn altgr_normalization_is_idempotent() {
    let inputs = [
        KeyInput::with_modifiers('[', Modifiers { ctrl: true, alt: true, shift: false }),
        KeyInput::with_modifiers('{', Modifiers { ctrl: true, alt: true, shift: true }),
        KeyInput::alt('f'),
        KeyInput::ctrl('a'),
        KeyInput::new(KeyCode::Enter),
    ];
    for k in inputs {
        let once = k.normalize_altgr();
        assert_eq!(once.normalize_altgr(), once);
    }
}

#[test]
fn bound_sequence_runs_its_action() {
    let mut handler = KeyEventHandler::empty(false);
    handler.insert(KeyEventRegister::n(vec![KeyInput::new('g'), KeyInput::new('l')]), Action::MoveForward(MoveForward(2)));
    handler.insert(KeyEventRegister::n(vec![KeyInput::new('g'), KeyInput::new('g')]), Action::MoveForward(MoveForward(1)));
    let mut state = EditorState::new(Lines::from("abcdef"));

    // `g` alone is ambiguous: nothing happens yet
    handler.on_event(KeyInput::new('g'), &mut state);
    assert_eq!(state.cursor, Index2::new(0, 0));
    // `l` completes `gl`
    handler.on_event(KeyInput::new('l'), &mut state);
    assert_eq!(state.cursor, Index2::new(0, 2));
    // an unbound key is dropped and the lookup starts afresh
    handler.on_event(KeyInput::new('z'), &mut state);
    handler.on_event(KeyInput::new('g'), &mut state);
    handler.on_event(KeyInput::new('g'), &mut state);
    assert_eq!(state.cursor, Index2::new(0, 3));
}

#[test]
fn removed_binding_no_longer_runs() {
    let mut handler = KeyEventHandler::empty(false);
    let key = KeyEventRegister::n(vec![KeyInput::new('x')]);
    handler.insert(key.clone(), Action::MoveForward(MoveForward(1)));
    handler.remove(&key);
    let mut state = EditorState::new(Lines::from("abc"));
    handler.on_event(KeyInput::new('x'), &mut state);
    assert_eq!(state.cursor, Index2::new(0, 0));
}

#[test]
fn previous_match_reverts_next_match() {
    let lines = Lines::from("ab ab\nab");
    let mut search = SearchState::new();
    search.push_char('a');
    search.push_char('b');
    search.trigger_search(&lines);
    assert_eq!(search.first(), Some(Index2::new(0, 0)));
    assert_eq!(search.next(), Some(Index2::new(0, 3)));
    assert_eq!(search.next(), Some(Index2::new(1, 0)));
    assert_eq!(search.previous(), Some(Index2::new(0, 3)));
    assert_eq!(search.next(), Some(Index2::new(1, 0)));
    // wrapping around at the end
    assert_eq!(search.next(), Some(Index2::new(0, 0)));
    assert_eq!(search.previous(), Some(Index2::new(1, 0)));
}

#[test]
fn selection_covers_the_same_whichever_end_it_started_from() {
    let a = Index2::new(0, 3);
    let b = Index2::new(2, 1);
    let forward = Selection::new(a, b);
    let backward = Selection::new(b, a);
    for row in 0..4 {
        for col in 0..6 {
            let p = Index2::new(row, col);
            assert_eq!(forward.contains(&p), backward.contains(&p));
        }
    }
    assert_eq!(forward.start(), backward.start());
    assert_eq!(forward.end(), backward.end());
}

#[test]
fn vertical_viewport_keeps_cursor_visible() {
    for height in 1..5usize {
        for vy in 0..6usize {
            for cursor in 0..12usize {
                let mut view = ViewState::new();
                view.viewport.y = vy;
                let y = view.update_viewport_vertical(height, cursor);
                assert!(y <= cursor && cursor < y + height, "height {height} vy {vy} cursor {cursor} -> {y}");
                assert_eq!(view.viewport.y, y);
            }
        }
    }
}

#[test]
fn horizontal_viewport_never_passes_cursor() {
    let line: Vec<char> = "a\tbcdefgh".chars().collect();
    for width in 0..6usize {
        for vx in 0..10usize {
            for cursor in 0..12usize {
                let mut view = ViewState::new();
                view.tab_width = 4;
                view.viewport.x = vx;
                let x = view.update_viewport_horizontal(width, cursor, Some(&line));
                assert!(x <= cursor);
            }
        }
    }
    let mut view = ViewState::new();
    view.viewport.x = 3;
    assert_eq!(view.update_viewport_horizontal(5, 7, None), 0);
}

#[test]
fn split_widths_add_up() {
    for line_width in 0..20usize {
        for max_width in 1..6usize {
            let pieces = LineWrapper::determine_split(line_width, max_width);
            assert_eq!(pieces.iter().sum::<usize>(), line_width);
            assert!(pieces.iter().all(|&p| p <= max_width));
            assert!(!pieces.is_empty());
        }
    }
}

#[test]
fn wrapping_keeps_the_text() {
    let line: Vec<char> = "Hello\tWorld, wide 🙂 text".chars().collect();
    for max_width in 1..8usize {
        let rows = LineWrapper::wrap_line(&line, max_width, 2);
        let joined: Vec<char> = rows.concat();
        assert_eq!(joined, line);
    }
}

#[test]
fn backspace_reverts_typed_character() {
    for col in 0..4usize {
        let mut lines = Lines::from("abc\nde");
        let mut index = Index2::new(0, col);
        insert_char(&mut lines, &mut index, 'x', false);
        assert_eq!(index, Index2::new(0, col + 1));
        delete_char(&mut lines, &mut index);
        assert_eq!(lines, Lines::from("abc\nde"));
        assert_eq!(index, Index2::new(0, col));
    }
}

#[test]
fn backspace_reverts_line_break() {
    for col in 0..4usize {
        let mut lines = Lines::from("abc\nde");
        let mut index = Index2::new(0, col);
        insert_char(&mut lines, &mut index, '\n', false);
        assert_eq!(index, Index2::new(1, 0));
        delete_char(&mut lines, &mut index);
        assert_eq!(lines, Lines::from("abc\nde"));
        assert_eq!(index, Index2::new(0, col));
    }
}
