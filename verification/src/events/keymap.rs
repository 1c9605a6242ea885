//! The default key maps: Vim-like and Emacs-like bindings.
use vstd::prelude::*;
use crate::actions::{Action, AppendNewline, AppendToSearch, ChangeBigWord, ChangeFindForward, ChangeInnerBetween, ChangeInnerBigWord, ChangeInnerWord, ChangeSelection, ChangeTillForward, ChangeWord, ClearSearch, Composed, CopyLine, CopySelection, DeleteBigWordEnd, DeleteBigWordForward, DeleteChar, DeleteCharForward, DeleteFindForward, DeleteFromSearch, DeleteInnerBetween, DeleteInnerBigWord, DeleteInnerWord, DeleteLine, DeleteSelection, DeleteTillForward, DeleteToEndOfLine, DeleteToFirstCharOfLine, DeleteWordBackward, DeleteWordEnd, DeleteWordForward, FindFirst, FindNext, FindPrevious, InsertChar, InsertNewline, JoinLineWithLineBelow, LineBreak, MoveBackward, MoveDown, MoveForward, MoveHalfPageDown, MoveHalfPageUp, MovePageDown, MovePageUp, MoveParagraphBackward, MoveParagraphForward, MoveToEndOfLine, MoveToFirst, MoveToFirstRow, MoveToLastRow, MoveToMatchinBracket, MoveToStartOfLine, MoveUp, MoveWordBackward, MoveWordForward, MoveWordForwardToEndOfWord, OpenSystemEditor, Paste, PasteBefore, PasteOverSelection, Redo, RemoveChar, RepeatLastChange, ReplaceChar, SelectCurrentSearch, SelectInnerBetween, SelectInnerBigWord, SelectInnerWord, SelectLine, StartSearch, StopSearch, SwitchMode, Undo};
use crate::actions::change::change_inner_between;
use crate::actions::select::{select_inner_between, delete_inner_between};
use crate::events::input::{
    KeyCode, KeyInput, key_input, no_modifiers, ctrl_modifier, alt_modifier, shift_modifier,
};
use crate::events::key::{KeyEventRegister, reg_key, to_map};
use crate::events::bindings::{vim_plain_keys_bound, vim_more_keys_bound, lemma_vim_normal_keys, lemma_vim_more_keys, emacs_keys_bound, lemma_emacs_keys};
use crate::mode::EditorMode;

verus! {

/// What a key map binds a key sequence to: one action, or a chain of
/// actions run one after the other.
pub enum Bound {
    One(Action),
    Chain(Seq<Action>),
}

/// Whether an action is what the key map binds.
pub open spec fn bound_as(a: Action, b: Bound) -> bool {
    match b {
        Bound::One(x) => a == x,
        Bound::Chain(xs) => a is Composed && a->Composed_0.0@ == xs,
    }
}

/// Whether a list of bindings holds the entries of a key map, in order.
pub open spec fn matches_table(
    v: Seq<(KeyEventRegister, Action)>,
    t: Seq<((Seq<KeyInput>, EditorMode), Bound)>,
) -> bool {
    &&& v.len() == t.len()
    &&& forall|i: int| 0 <= i < v.len() ==> reg_key(#[trigger] v[i].0) == t[i].0 && bound_as(v[i].1, t[i].1)
}

proof fn lemma_matches_concat(
    a: Seq<(KeyEventRegister, Action)>,
    ta: Seq<((Seq<KeyInput>, EditorMode), Bound)>,
    b: Seq<(KeyEventRegister, Action)>,
    tb: Seq<((Seq<KeyInput>, EditorMode), Bound)>,
)
    requires
        matches_table(a, ta),
        matches_table(b, tb),
    ensures
        matches_table(a + b, ta + tb),
{
    assert forall|i: int| 0 <= i < (a + b).len() implies
        reg_key(#[trigger] (a + b)[i].0) == (ta + tb)[i].0 && bound_as((a + b)[i].1, (ta + tb)[i].1) by {
        if i < a.len() {
            assert((a + b)[i] == a[i]);
            assert((ta + tb)[i] == ta[i]);
            assert(reg_key(a[i].0) == ta[i].0 && bound_as(a[i].1, ta[i].1));
        } else {
            assert((a + b)[i] == b[i - a.len()]);
            assert((ta + tb)[i] == tb[i - a.len()]);
            assert(reg_key(b[i - a.len()].0) == tb[i - a.len()].0 && bound_as(b[i - a.len()].1, tb[i - a.len()].1));
        }
    }
}


pub open spec fn vim_0_table() -> Seq<((Seq<KeyInput>, EditorMode), Bound)> {
    seq![
        ((seq![key_input(KeyCode::Esc, no_modifiers())], EditorMode::Insert), Bound::One(Action::SwitchMode(SwitchMode(EditorMode::Normal)))),
        ((seq![key_input(KeyCode::Esc, no_modifiers())], EditorMode::Visual), Bound::One(Action::SwitchMode(SwitchMode(EditorMode::Normal)))),
        ((seq![key_input(KeyCode::Char('i'), no_modifiers())], EditorMode::Normal), Bound::One(Action::SwitchMode(SwitchMode(EditorMode::Insert)))),
        ((seq![key_input(KeyCode::Char('v'), no_modifiers())], EditorMode::Normal), Bound::One(Action::SwitchMode(SwitchMode(EditorMode::Visual)))),
        ((seq![key_input(KeyCode::Char('/'), no_modifiers())], EditorMode::Normal), Bound::Chain(seq![Action::StartSearch(StartSearch), Action::SwitchMode(SwitchMode(EditorMode::Search))])),
        ((seq![key_input(KeyCode::Enter, no_modifiers())], EditorMode::Search), Bound::Chain(seq![Action::FindFirst(FindFirst), Action::SwitchMode(SwitchMode(EditorMode::Normal))])),
        ((seq![key_input(KeyCode::Char('n'), no_modifiers())], EditorMode::Normal), Bound::One(Action::FindNext(FindNext))),
        ((seq![key_input(KeyCode::Char('N'), shift_modifier())], EditorMode::Normal), Bound::One(Action::FindPrevious(FindPrevious))),
        ((seq![key_input(KeyCode::Esc, no_modifiers())], EditorMode::Search), Bound::Chain(seq![Action::StopSearch(StopSearch), Action::SwitchMode(SwitchMode(EditorMode::Normal))])),
        ((seq![key_input(KeyCode::Backspace, no_modifiers())], EditorMode::Search), Bound::One(Action::DeleteFromSearch(DeleteFromSearch))),
        ((seq![key_input(KeyCode::Char('a'), no_modifiers())], EditorMode::Normal), Bound::Chain(seq![Action::SwitchMode(SwitchMode(EditorMode::Insert)), Action::MoveForward(MoveForward(1))])),
        ((seq![key_input(KeyCode::Char('l'), no_modifiers())], EditorMode::Normal), Bound::One(Action::MoveForward(MoveForward(1)))),
    ]
}

fn vim_0() -> (v: Vec<(KeyEventRegister, Action)>)
    ensures
        matches_table(v@, vim_0_table()),
{
    let v = vec![
        (KeyEventRegister::new(vec![KeyInput::new(KeyCode::Esc)], EditorMode::Insert), Action::SwitchMode(SwitchMode(EditorMode::Normal))),
        (KeyEventRegister::new(vec![KeyInput::new(KeyCode::Esc)], EditorMode::Visual), Action::SwitchMode(SwitchMode(EditorMode::Normal))),
        (KeyEventRegister::new(vec![KeyInput::new('i')], EditorMode::Normal), Action::SwitchMode(SwitchMode(EditorMode::Insert))),
        (KeyEventRegister::new(vec![KeyInput::new('v')], EditorMode::Normal), Action::SwitchMode(SwitchMode(EditorMode::Visual))),
        (KeyEventRegister::new(vec![KeyInput::new('/')], EditorMode::Normal), Action::Composed(Composed(vec![Action::StartSearch(StartSearch), Action::SwitchMode(SwitchMode(EditorMode::Search))]))),
        (KeyEventRegister::new(vec![KeyInput::new(KeyCode::Enter)], EditorMode::Search), Action::Composed(Composed(vec![Action::FindFirst(FindFirst), Action::SwitchMode(SwitchMode(EditorMode::Normal))]))),
        (KeyEventRegister::new(vec![KeyInput::new('n')], EditorMode::Normal), Action::FindNext(FindNext)),
        (KeyEventRegister::new(vec![KeyInput::shift('N')], EditorMode::Normal), Action::FindPrevious(FindPrevious)),
        (KeyEventRegister::new(vec![KeyInput::new(KeyCode::Esc)], EditorMode::Search), Action::Composed(Composed(vec![Action::StopSearch(StopSearch), Action::SwitchMode(SwitchMode(EditorMode::Normal))]))),
        (KeyEventRegister::new(vec![KeyInput::new(KeyCode::Backspace)], EditorMode::Search), Action::DeleteFromSearch(DeleteFromSearch)),
        (KeyEventRegister::new(vec![KeyInput::new('a')], EditorMode::Normal), Action::Composed(Composed(vec![Action::SwitchMode(SwitchMode(EditorMode::Insert)), Action::MoveForward(MoveForward(1))]))),
        (KeyEventRegister::new(vec![KeyInput::new('l')], EditorMode::Normal), Action::MoveForward(MoveForward(1))),
    ];
    proof {
        let t = vim_0_table();
        assert(v@.len() == t.len());
        assert(reg_key(v@[0].0) == t[0].0 && bound_as(v@[0].1, t[0].1));
        assert(reg_key(v@[1].0) == t[1].0 && bound_as(v@[1].1, t[1].1));
        assert(reg_key(v@[2].0) == t[2].0 && bound_as(v@[2].1, t[2].1));
        assert(reg_key(v@[3].0) == t[3].0 && bound_as(v@[3].1, t[3].1));
        assert(reg_key(v@[4].0) == t[4].0 && bound_as(v@[4].1, t[4].1));
        assert(reg_key(v@[5].0) == t[5].0 && bound_as(v@[5].1, t[5].1));
        assert(reg_key(v@[6].0) == t[6].0 && bound_as(v@[6].1, t[6].1));
        assert(reg_key(v@[7].0) == t[7].0 && bound_as(v@[7].1, t[7].1));
        assert(reg_key(v@[8].0) == t[8].0 && bound_as(v@[8].1, t[8].1));
        assert(reg_key(v@[9].0) == t[9].0 && bound_as(v@[9].1, t[9].1));
        assert(reg_key(v@[10].0) == t[10].0 && bound_as(v@[10].1, t[10].1));
        assert(reg_key(v@[11].0) == t[11].0 && bound_as(v@[11].1, t[11].1));
    }
    v
}

pub open spec fn vim_1_table() -> Seq<((Seq<KeyInput>, EditorMode), Bound)> {
    seq![
        ((seq![key_input(KeyCode::Char('l'), no_modifiers())], EditorMode::Visual), Bound::One(Action::MoveForward(MoveForward(1)))),
        ((seq![key_input(KeyCode::Right, no_modifiers())], EditorMode::Normal), Bound::One(Action::MoveForward(MoveForward(1)))),
        ((seq![key_input(KeyCode::Right, no_modifiers())], EditorMode::Visual), Bound::One(Action::MoveForward(MoveForward(1)))),
        ((seq![key_input(KeyCode::Right, no_modifiers())], EditorMode::Insert), Bound::One(Action::MoveForward(MoveForward(1)))),
        ((seq![key_input(KeyCode::Char('h'), no_modifiers())], EditorMode::Normal), Bound::One(Action::MoveBackward(MoveBackward(1)))),
        ((seq![key_input(KeyCode::Char('h'), no_modifiers())], EditorMode::Visual), Bound::One(Action::MoveBackward(MoveBackward(1)))),
        ((seq![key_input(KeyCode::Left, no_modifiers())], EditorMode::Normal), Bound::One(Action::MoveBackward(MoveBackward(1)))),
        ((seq![key_input(KeyCode::Left, no_modifiers())], EditorMode::Visual), Bound::One(Action::MoveBackward(MoveBackward(1)))),
        ((seq![key_input(KeyCode::Left, no_modifiers())], EditorMode::Insert), Bound::One(Action::MoveBackward(MoveBackward(1)))),
        ((seq![key_input(KeyCode::Right, ctrl_modifier())], EditorMode::Insert), Bound::One(Action::MoveWordForward(MoveWordForward(1)))),
        ((seq![key_input(KeyCode::Left, ctrl_modifier())], EditorMode::Insert), Bound::One(Action::MoveWordBackward(MoveWordBackward(1)))),
        ((seq![key_input(KeyCode::Char('k'), no_modifiers())], EditorMode::Normal), Bound::One(Action::MoveUp(MoveUp(1)))),
    ]
}

fn vim_1() -> (v: Vec<(KeyEventRegister, Action)>)
    ensures
        matches_table(v@, vim_1_table()),
{
    let v = vec![
        (KeyEventRegister::new(vec![KeyInput::new('l')], EditorMode::Visual), Action::MoveForward(MoveForward(1))),
        (KeyEventRegister::new(vec![KeyInput::new(KeyCode::Right)], EditorMode::Normal), Action::MoveForward(MoveForward(1))),
        (KeyEventRegister::new(vec![KeyInput::new(KeyCode::Right)], EditorMode::Visual), Action::MoveForward(MoveForward(1))),
        (KeyEventRegister::new(vec![KeyInput::new(KeyCode::Right)], EditorMode::Insert), Action::MoveForward(MoveForward(1))),
        (KeyEventRegister::new(vec![KeyInput::new('h')], EditorMode::Normal), Action::MoveBackward(MoveBackward(1))),
        (KeyEventRegister::new(vec![KeyInput::new('h')], EditorMode::Visual), Action::MoveBackward(MoveBackward(1))),
        (KeyEventRegister::new(vec![KeyInput::new(KeyCode::Left)], EditorMode::Normal), Action::MoveBackward(MoveBackward(1))),
        (KeyEventRegister::new(vec![KeyInput::new(KeyCode::Left)], EditorMode::Visual), Action::MoveBackward(MoveBackward(1))),
        (KeyEventRegister::new(vec![KeyInput::new(KeyCode::Left)], EditorMode::Insert), Action::MoveBackward(MoveBackward(1))),
        (KeyEventRegister::new(vec![KeyInput::ctrl(KeyCode::Right)], EditorMode::Insert), Action::MoveWordForward(MoveWordForward(1))),
        (KeyEventRegister::new(vec![KeyInput::ctrl(KeyCode::Left)], EditorMode::Insert), Action::MoveWordBackward(MoveWordBackward(1))),
        (KeyEventRegister::new(vec![KeyInput::new('k')], EditorMode::Normal), Action::MoveUp(MoveUp(1))),
    ];
    proof {
        let t = vim_1_table();
        assert(v@.len() == t.len());
        assert(reg_key(v@[0].0) == t[0].0 && bound_as(v@[0].1, t[0].1));
        assert(reg_key(v@[1].0) == t[1].0 && bound_as(v@[1].1, t[1].1));
        assert(reg_key(v@[2].0) == t[2].0 && bound_as(v@[2].1, t[2].1));
        assert(reg_key(v@[3].0) == t[3].0 && bound_as(v@[3].1, t[3].1));
        assert(reg_key(v@[4].0) == t[4].0 && bound_as(v@[4].1, t[4].1));
        assert(reg_key(v@[5].0) == t[5].0 && bound_as(v@[5].1, t[5].1));
        assert(reg_key(v@[6].0) == t[6].0 && bound_as(v@[6].1, t[6].1));
        assert(reg_key(v@[7].0) == t[7].0 && bound_as(v@[7].1, t[7].1));
        assert(reg_key(v@[8].0) == t[8].0 && bound_as(v@[8].1, t[8].1));
        assert(reg_key(v@[9].0) == t[9].0 && bound_as(v@[9].1, t[9].1));
        assert(reg_key(v@[10].0) == t[10].0 && bound_as(v@[10].1, t[10].1));
        assert(reg_key(v@[11].0) == t[11].0 && bound_as(v@[11].1, t[11].1));
    }
    v
}

pub open spec fn vim_2_table() -> Seq<((Seq<KeyInput>, EditorMode), Bound)> {
    seq![
        ((seq![key_input(KeyCode::Char('k'), no_modifiers())], EditorMode::Visual), Bound::One(Action::MoveUp(MoveUp(1)))),
        ((seq![key_input(KeyCode::Up, no_modifiers())], EditorMode::Normal), Bound::One(Action::MoveUp(MoveUp(1)))),
        ((seq![key_input(KeyCode::Up, no_modifiers())], EditorMode::Visual), Bound::One(Action::MoveUp(MoveUp(1)))),
        ((seq![key_input(KeyCode::Up, no_modifiers())], EditorMode::Insert), Bound::One(Action::MoveUp(MoveUp(1)))),
        ((seq![key_input(KeyCode::Char('j'), no_modifiers())], EditorMode::Normal), Bound::One(Action::MoveDown(MoveDown(1)))),
        ((seq![key_input(KeyCode::Char('j'), no_modifiers())], EditorMode::Visual), Bound::One(Action::MoveDown(MoveDown(1)))),
        ((seq![key_input(KeyCode::Down, no_modifiers())], EditorMode::Normal), Bound::One(Action::MoveDown(MoveDown(1)))),
        ((seq![key_input(KeyCode::Down, no_modifiers())], EditorMode::Visual), Bound::One(Action::MoveDown(MoveDown(1)))),
        ((seq![key_input(KeyCode::Down, no_modifiers())], EditorMode::Insert), Bound::One(Action::MoveDown(MoveDown(1)))),
        ((seq![key_input(KeyCode::Char('w'), no_modifiers())], EditorMode::Normal), Bound::One(Action::MoveWordForward(MoveWordForward(1)))),
        ((seq![key_input(KeyCode::Char('w'), no_modifiers())], EditorMode::Visual), Bound::One(Action::MoveWordForward(MoveWordForward(1)))),
        ((seq![key_input(KeyCode::Char('e'), no_modifiers())], EditorMode::Normal), Bound::One(Action::MoveWordForwardToEndOfWord(MoveWordForwardToEndOfWord(1)))),
    ]
}

fn vim_2() -> (v: Vec<(KeyEventRegister, Action)>)
    ensures
        matches_table(v@, vim_2_table()),
{
    let v = vec![
        (KeyEventRegister::new(vec![KeyInput::new('k')], EditorMode::Visual), Action::MoveUp(MoveUp(1))),
        (KeyEventRegister::new(vec![KeyInput::new(KeyCode::Up)], EditorMode::Normal), Action::MoveUp(MoveUp(1))),
        (KeyEventRegister::new(vec![KeyInput::new(KeyCode::Up)], EditorMode::Visual), Action::MoveUp(MoveUp(1))),
        (KeyEventRegister::new(vec![KeyInput::new(KeyCode::Up)], EditorMode::Insert), Action::MoveUp(MoveUp(1))),
        (KeyEventRegister::new(vec![KeyInput::new('j')], EditorMode::Normal), Action::MoveDown(MoveDown(1))),
        (KeyEventRegister::new(vec![KeyInput::new('j')], EditorMode::Visual), Action::MoveDown(MoveDown(1))),
        (KeyEventRegister::new(vec![KeyInput::new(KeyCode::Down)], EditorMode::Normal), Action::MoveDown(MoveDown(1))),
        (KeyEventRegister::new(vec![KeyInput::new(KeyCode::Down)], EditorMode::Visual), Action::MoveDown(MoveDown(1))),
        (KeyEventRegister::new(vec![KeyInput::new(KeyCode::Down)], EditorMode::Insert), Action::MoveDown(MoveDown(1))),
        (KeyEventRegister::new(vec![KeyInput::new('w')], EditorMode::Normal), Action::MoveWordForward(MoveWordForward(1))),
        (KeyEventRegister::new(vec![KeyInput::new('w')], EditorMode::Visual), Action::MoveWordForward(MoveWordForward(1))),
        (KeyEventRegister::new(vec![KeyInput::new('e')], EditorMode::Normal), Action::MoveWordForwardToEndOfWord(MoveWordForwardToEndOfWord(1))),
    ];
    proof {
        let t = vim_2_table();
        assert(v@.len() == t.len());
        assert(reg_key(v@[0].0) == t[0].0 && bound_as(v@[0].1, t[0].1));
        assert(reg_key(v@[1].0) == t[1].0 && bound_as(v@[1].1, t[1].1));
        assert(reg_key(v@[2].0) == t[2].0 && bound_as(v@[2].1, t[2].1));
        assert(reg_key(v@[3].0) == t[3].0 && bound_as(v@[3].1, t[3].1));
        assert(reg_key(v@[4].0) == t[4].0 && bound_as(v@[4].1, t[4].1));
        assert(reg_key(v@[5].0) == t[5].0 && bound_as(v@[5].1, t[5].1));
        assert(reg_key(v@[6].0) == t[6].0 && bound_as(v@[6].1, t[6].1));
        assert(reg_key(v@[7].0) == t[7].0 && bound_as(v@[7].1, t[7].1));
        assert(reg_key(v@[8].0) == t[8].0 && bound_as(v@[8].1, t[8].1));
        assert(reg_key(v@[9].0) == t[9].0 && bound_as(v@[9].1, t[9].1));
        assert(reg_key(v@[10].0) == t[10].0 && bound_as(v@[10].1, t[10].1));
        assert(reg_key(v@[11].0) == t[11].0 && bound_as(v@[11].1, t[11].1));
    }
    v
}

pub open spec fn vim_3_table() -> Seq<((Seq<KeyInput>, EditorMode), Bound)> {
    seq![
        ((seq![key_input(KeyCode::Char('e'), no_modifiers())], EditorMode::Visual), Bound::One(Action::MoveWordForwardToEndOfWord(MoveWordForwardToEndOfWord(1)))),
        ((seq![key_input(KeyCode::Char('b'), no_modifiers())], EditorMode::Normal), Bound::One(Action::MoveWordBackward(MoveWordBackward(1)))),
        ((seq![key_input(KeyCode::Char('b'), no_modifiers())], EditorMode::Visual), Bound::One(Action::MoveWordBackward(MoveWordBackward(1)))),
        ((seq![key_input(KeyCode::Char('0'), no_modifiers())], EditorMode::Normal), Bound::One(Action::MoveToStartOfLine(MoveToStartOfLine()))),
        ((seq![key_input(KeyCode::Char('_'), no_modifiers())], EditorMode::Normal), Bound::One(Action::MoveToFirst(MoveToFirst()))),
        ((seq![key_input(KeyCode::Char('$'), no_modifiers())], EditorMode::Normal), Bound::One(Action::MoveToEndOfLine(MoveToEndOfLine()))),
        ((seq![key_input(KeyCode::Char('0'), no_modifiers())], EditorMode::Visual), Bound::One(Action::MoveToStartOfLine(MoveToStartOfLine()))),
        ((seq![key_input(KeyCode::Char('_'), no_modifiers())], EditorMode::Visual), Bound::One(Action::MoveToFirst(MoveToFirst()))),
        ((seq![key_input(KeyCode::Char('$'), no_modifiers())], EditorMode::Visual), Bound::One(Action::MoveToEndOfLine(MoveToEndOfLine()))),
        ((seq![key_input(KeyCode::Char('d'), ctrl_modifier())], EditorMode::Normal), Bound::One(Action::MoveHalfPageDown(MoveHalfPageDown()))),
        ((seq![key_input(KeyCode::Char('d'), ctrl_modifier())], EditorMode::Visual), Bound::One(Action::MoveHalfPageDown(MoveHalfPageDown()))),
        ((seq![key_input(KeyCode::Char('u'), ctrl_modifier())], EditorMode::Normal), Bound::One(Action::MoveHalfPageUp(MoveHalfPageUp()))),
    ]
}

fn vim_3() -> (v: Vec<(KeyEventRegister, Action)>)
    ensures
        matches_table(v@, vim_3_table()),
{
    let v = vec![
        (KeyEventRegister::new(vec![KeyInput::new('e')], EditorMode::Visual), Action::MoveWordForwardToEndOfWord(MoveWordForwardToEndOfWord(1))),
        (KeyEventRegister::new(vec![KeyInput::new('b')], EditorMode::Normal), Action::MoveWordBackward(MoveWordBackward(1))),
        (KeyEventRegister::new(vec![KeyInput::new('b')], EditorMode::Visual), Action::MoveWordBackward(MoveWordBackward(1))),
        (KeyEventRegister::new(vec![KeyInput::new('0')], EditorMode::Normal), Action::MoveToStartOfLine(MoveToStartOfLine())),
        (KeyEventRegister::new(vec![KeyInput::new('_')], EditorMode::Normal), Action::MoveToFirst(MoveToFirst())),
        (KeyEventRegister::new(vec![KeyInput::new('$')], EditorMode::Normal), Action::MoveToEndOfLine(MoveToEndOfLine())),
        (KeyEventRegister::new(vec![KeyInput::new('0')], EditorMode::Visual), Action::MoveToStartOfLine(MoveToStartOfLine())),
        (KeyEventRegister::new(vec![KeyInput::new('_')], EditorMode::Visual), Action::MoveToFirst(MoveToFirst())),
        (KeyEventRegister::new(vec![KeyInput::new('$')], EditorMode::Visual), Action::MoveToEndOfLine(MoveToEndOfLine())),
        (KeyEventRegister::new(vec![KeyInput::ctrl('d')], EditorMode::Normal), Action::MoveHalfPageDown(MoveHalfPageDown())),
        (KeyEventRegister::new(vec![KeyInput::ctrl('d')], EditorMode::Visual), Action::MoveHalfPageDown(MoveHalfPageDown())),
        (KeyEventRegister::new(vec![KeyInput::ctrl('u')], EditorMode::Normal), Action::MoveHalfPageUp(MoveHalfPageUp())),
    ];
    proof {
        let t = vim_3_table();
        assert(v@.len() == t.len());
        assert(reg_key(v@[0].0) == t[0].0 && bound_as(v@[0].1, t[0].1));
        assert(reg_key(v@[1].0) == t[1].0 && bound_as(v@[1].1, t[1].1));
        assert(reg_key(v@[2].0) == t[2].0 && bound_as(v@[2].1, t[2].1));
        assert(reg_key(v@[3].0) == t[3].0 && bound_as(v@[3].1, t[3].1));
        assert(reg_key(v@[4].0) == t[4].0 && bound_as(v@[4].1, t[4].1));
        assert(reg_key(v@[5].0) == t[5].0 && bound_as(v@[5].1, t[5].1));
        assert(reg_key(v@[6].0) == t[6].0 && bound_as(v@[6].1, t[6].1));
        assert(reg_key(v@[7].0) == t[7].0 && bound_as(v@[7].1, t[7].1));
        assert(reg_key(v@[8].0) == t[8].0 && bound_as(v@[8].1, t[8].1));
        assert(reg_key(v@[9].0) == t[9].0 && bound_as(v@[9].1, t[9].1));
        assert(reg_key(v@[10].0) == t[10].0 && bound_as(v@[10].1, t[10].1));
        assert(reg_key(v@[11].0) == t[11].0 && bound_as(v@[11].1, t[11].1));
    }
    v
}

pub open spec fn vim_4_table() -> Seq<((Seq<KeyInput>, EditorMode), Bound)> {
    seq![
        ((seq![key_input(KeyCode::Char('u'), ctrl_modifier())], EditorMode::Visual), Bound::One(Action::MoveHalfPageUp(MoveHalfPageUp()))),
        ((seq![key_input(KeyCode::PageDown, no_modifiers())], EditorMode::Normal), Bound::One(Action::MovePageDown(MovePageDown()))),
        ((seq![key_input(KeyCode::PageDown, no_modifiers())], EditorMode::Visual), Bound::One(Action::MovePageDown(MovePageDown()))),
        ((seq![key_input(KeyCode::PageDown, no_modifiers())], EditorMode::Insert), Bound::One(Action::MovePageDown(MovePageDown()))),
        ((seq![key_input(KeyCode::PageUp, no_modifiers())], EditorMode::Normal), Bound::One(Action::MovePageUp(MovePageUp()))),
        ((seq![key_input(KeyCode::PageUp, no_modifiers())], EditorMode::Visual), Bound::One(Action::MovePageUp(MovePageUp()))),
        ((seq![key_input(KeyCode::PageUp, no_modifiers())], EditorMode::Insert), Bound::One(Action::MovePageUp(MovePageUp()))),
        ((seq![key_input(KeyCode::Home, no_modifiers())], EditorMode::Insert), Bound::One(Action::MoveToStartOfLine(MoveToStartOfLine()))),
        ((seq![key_input(KeyCode::Home, no_modifiers())], EditorMode::Normal), Bound::One(Action::MoveToStartOfLine(MoveToStartOfLine()))),
        ((seq![key_input(KeyCode::Home, no_modifiers())], EditorMode::Visual), Bound::One(Action::MoveToStartOfLine(MoveToStartOfLine()))),
        ((seq![key_input(KeyCode::End, no_modifiers())], EditorMode::Insert), Bound::One(Action::MoveToEndOfLine(MoveToEndOfLine()))),
        ((seq![key_input(KeyCode::End, no_modifiers())], EditorMode::Normal), Bound::One(Action::MoveToEndOfLine(MoveToEndOfLine()))),
    ]
}

fn vim_4() -> (v: Vec<(KeyEventRegister, Action)>)
    ensures
        matches_table(v@, vim_4_table()),
{
    let v = vec![
        (KeyEventRegister::new(vec![KeyInput::ctrl('u')], EditorMode::Visual), Action::MoveHalfPageUp(MoveHalfPageUp())),
        (KeyEventRegister::new(vec![KeyInput::new(KeyCode::PageDown)], EditorMode::Normal), Action::MovePageDown(MovePageDown())),
        (KeyEventRegister::new(vec![KeyInput::new(KeyCode::PageDown)], EditorMode::Visual), Action::MovePageDown(MovePageDown())),
        (KeyEventRegister::new(vec![KeyInput::new(KeyCode::PageDown)], EditorMode::Insert), Action::MovePageDown(MovePageDown())),
        (KeyEventRegister::new(vec![KeyInput::new(KeyCode::PageUp)], EditorMode::Normal), Action::MovePageUp(MovePageUp())),
        (KeyEventRegister::new(vec![KeyInput::new(KeyCode::PageUp)], EditorMode::Visual), Action::MovePageUp(MovePageUp())),
        (KeyEventRegister::new(vec![KeyInput::new(KeyCode::PageUp)], EditorMode::Insert), Action::MovePageUp(MovePageUp())),
        (KeyEventRegister::new(vec![KeyInput::new(KeyCode::Home)], EditorMode::Insert), Action::MoveToStartOfLine(MoveToStartOfLine())),
        (KeyEventRegister::new(vec![KeyInput::new(KeyCode::Home)], EditorMode::Normal), Action::MoveToStartOfLine(MoveToStartOfLine())),
        (KeyEventRegister::new(vec![KeyInput::new(KeyCode::Home)], EditorMode::Visual), Action::MoveToStartOfLine(MoveToStartOfLine())),
        (KeyEventRegister::new(vec![KeyInput::new(KeyCode::End)], EditorMode::Insert), Action::MoveToEndOfLine(MoveToEndOfLine())),
        (KeyEventRegister::new(vec![KeyInput::new(KeyCode::End)], EditorMode::Normal), Action::MoveToEndOfLine(MoveToEndOfLine())),
    ];
    proof {
        let t = vim_4_table();
        assert(v@.len() == t.len());
        assert(reg_key(v@[0].0) == t[0].0 && bound_as(v@[0].1, t[0].1));
        assert(reg_key(v@[1].0) == t[1].0 && bound_as(v@[1].1, t[1].1));
        assert(reg_key(v@[2].0) == t[2].0 && bound_as(v@[2].1, t[2].1));
        assert(reg_key(v@[3].0) == t[3].0 && bound_as(v@[3].1, t[3].1));
        assert(reg_key(v@[4].0) == t[4].0 && bound_as(v@[4].1, t[4].1));
        assert(reg_key(v@[5].0) == t[5].0 && bound_as(v@[5].1, t[5].1));
        assert(reg_key(v@[6].0) == t[6].0 && bound_as(v@[6].1, t[6].1));
        assert(reg_key(v@[7].0) == t[7].0 && bound_as(v@[7].1, t[7].1));
        assert(reg_key(v@[8].0) == t[8].0 && bound_as(v@[8].1, t[8].1));
        assert(reg_key(v@[9].0) == t[9].0 && bound_as(v@[9].1, t[9].1));
        assert(reg_key(v@[10].0) == t[10].0 && bound_as(v@[10].1, t[10].1));
        assert(reg_key(v@[11].0) == t[11].0 && bound_as(v@[11].1, t[11].1));
    }
    v
}

pub open spec fn vim_5_table() -> Seq<((Seq<KeyInput>, EditorMode), Bound)> {
    seq![
        ((seq![key_input(KeyCode::End, no_modifiers())], EditorMode::Visual), Bound::One(Action::MoveToEndOfLine(MoveToEndOfLine()))),
        ((seq![key_input(KeyCode::Char('u'), ctrl_modifier())], EditorMode::Insert), Bound::One(Action::DeleteToFirstCharOfLine(DeleteToFirstCharOfLine))),
        ((seq![key_input(KeyCode::Char('I'), shift_modifier())], EditorMode::Normal), Bound::Chain(seq![Action::SwitchMode(SwitchMode(EditorMode::Insert)), Action::MoveToFirst(MoveToFirst())])),
        ((seq![key_input(KeyCode::Char('A'), shift_modifier())], EditorMode::Normal), Bound::Chain(seq![Action::SwitchMode(SwitchMode(EditorMode::Insert)), Action::MoveToEndOfLine(MoveToEndOfLine()), Action::MoveForward(MoveForward(1))])),
        ((seq![key_input(KeyCode::Char('g'), no_modifiers()), key_input(KeyCode::Char('g'), no_modifiers())], EditorMode::Normal), Bound::One(Action::MoveToFirstRow(MoveToFirstRow()))),
        ((seq![key_input(KeyCode::Char('g'), no_modifiers()), key_input(KeyCode::Char('g'), no_modifiers())], EditorMode::Visual), Bound::One(Action::MoveToFirstRow(MoveToFirstRow()))),
        ((seq![key_input(KeyCode::Char('G'), shift_modifier())], EditorMode::Normal), Bound::One(Action::MoveToLastRow(MoveToLastRow()))),
        ((seq![key_input(KeyCode::Char('G'), shift_modifier())], EditorMode::Visual), Bound::One(Action::MoveToLastRow(MoveToLastRow()))),
        ((seq![key_input(KeyCode::Char('%'), no_modifiers())], EditorMode::Normal), Bound::One(Action::MoveToMatchingBracket(MoveToMatchinBracket()))),
        ((seq![key_input(KeyCode::Char('%'), no_modifiers())], EditorMode::Visual), Bound::One(Action::MoveToMatchingBracket(MoveToMatchinBracket()))),
        ((seq![key_input(KeyCode::Char('}'), no_modifiers())], EditorMode::Normal), Bound::One(Action::MoveParagraphForward(MoveParagraphForward()))),
        ((seq![key_input(KeyCode::Char('}'), no_modifiers())], EditorMode::Visual), Bound::One(Action::MoveParagraphForward(MoveParagraphForward()))),
    ]
}

fn vim_5() -> (v: Vec<(KeyEventRegister, Action)>)
    ensures
        matches_table(v@, vim_5_table()),
{
    let v = vec![
        (KeyEventRegister::new(vec![KeyInput::new(KeyCode::End)], EditorMode::Visual), Action::MoveToEndOfLine(MoveToEndOfLine())),
        (KeyEventRegister::new(vec![KeyInput::ctrl('u')], EditorMode::Insert), Action::DeleteToFirstCharOfLine(DeleteToFirstCharOfLine)),
        (KeyEventRegister::new(vec![KeyInput::shift('I')], EditorMode::Normal), Action::Composed(Composed(vec![Action::SwitchMode(SwitchMode(EditorMode::Insert)), Action::MoveToFirst(MoveToFirst())]))),
        (KeyEventRegister::new(vec![KeyInput::shift('A')], EditorMode::Normal), Action::Composed(Composed(vec![Action::SwitchMode(SwitchMode(EditorMode::Insert)), Action::MoveToEndOfLine(MoveToEndOfLine()), Action::MoveForward(MoveForward(1))]))),
        (KeyEventRegister::new(vec![KeyInput::new('g'), KeyInput::new('g')], EditorMode::Normal), Action::MoveToFirstRow(MoveToFirstRow())),
        (KeyEventRegister::new(vec![KeyInput::new('g'), KeyInput::new('g')], EditorMode::Visual), Action::MoveToFirstRow(MoveToFirstRow())),
        (KeyEventRegister::new(vec![KeyInput::shift('G')], EditorMode::Normal), Action::MoveToLastRow(MoveToLastRow())),
        (KeyEventRegister::new(vec![KeyInput::shift('G')], EditorMode::Visual), Action::MoveToLastRow(MoveToLastRow())),
        (KeyEventRegister::new(vec![KeyInput::new('%')], EditorMode::Normal), Action::MoveToMatchingBracket(MoveToMatchinBracket())),
        (KeyEventRegister::new(vec![KeyInput::new('%')], EditorMode::Visual), Action::MoveToMatchingBracket(MoveToMatchinBracket())),
        (KeyEventRegister::new(vec![KeyInput::new('}')], EditorMode::Normal), Action::MoveParagraphForward(MoveParagraphForward())),
        (KeyEventRegister::new(vec![KeyInput::new('}')], EditorMode::Visual), Action::MoveParagraphForward(MoveParagraphForward())),
    ];
    proof {
        let t = vim_5_table();
        assert(v@.len() == t.len());
        assert(reg_key(v@[0].0) == t[0].0 && bound_as(v@[0].1, t[0].1));
        assert(reg_key(v@[1].0) == t[1].0 && bound_as(v@[1].1, t[1].1));
        assert(reg_key(v@[2].0) == t[2].0 && bound_as(v@[2].1, t[2].1));
        assert(reg_key(v@[3].0) == t[3].0 && bound_as(v@[3].1, t[3].1));
        assert(reg_key(v@[4].0) == t[4].0 && bound_as(v@[4].1, t[4].1));
        assert(reg_key(v@[5].0) == t[5].0 && bound_as(v@[5].1, t[5].1));
        assert(reg_key(v@[6].0) == t[6].0 && bound_as(v@[6].1, t[6].1));
        assert(reg_key(v@[7].0) == t[7].0 && bound_as(v@[7].1, t[7].1));
        assert(reg_key(v@[8].0) == t[8].0 && bound_as(v@[8].1, t[8].1));
        assert(reg_key(v@[9].0) == t[9].0 && bound_as(v@[9].1, t[9].1));
        assert(reg_key(v@[10].0) == t[10].0 && bound_as(v@[10].1, t[10].1));
        assert(reg_key(v@[11].0) == t[11].0 && bound_as(v@[11].1, t[11].1));
    }
    v
}

pub open spec fn vim_6_table() -> Seq<((Seq<KeyInput>, EditorMode), Bound)> {
    seq![
        ((seq![key_input(KeyCode::Char('{'), no_modifiers())], EditorMode::Normal), Bound::One(Action::MoveParagraphBackward(MoveParagraphBackward()))),
        ((seq![key_input(KeyCode::Char('{'), no_modifiers())], EditorMode::Visual), Bound::One(Action::MoveParagraphBackward(MoveParagraphBackward()))),
        ((seq![key_input(KeyCode::Char('o'), no_modifiers())], EditorMode::Normal), Bound::Chain(seq![Action::SwitchMode(SwitchMode(EditorMode::Insert)), Action::AppendNewline(AppendNewline(1))])),
        ((seq![key_input(KeyCode::Char('O'), shift_modifier())], EditorMode::Normal), Bound::Chain(seq![Action::SwitchMode(SwitchMode(EditorMode::Insert)), Action::InsertNewline(InsertNewline(1))])),
        ((seq![key_input(KeyCode::Enter, no_modifiers())], EditorMode::Insert), Bound::One(Action::LineBreak(LineBreak(1)))),
        ((seq![key_input(KeyCode::Char('x'), no_modifiers())], EditorMode::Normal), Bound::One(Action::RemoveChar(RemoveChar(1)))),
        ((seq![key_input(KeyCode::Delete, no_modifiers())], EditorMode::Normal), Bound::One(Action::RemoveChar(RemoveChar(1)))),
        ((seq![key_input(KeyCode::Backspace, no_modifiers())], EditorMode::Insert), Bound::One(Action::DeleteChar(DeleteChar(1)))),
        ((seq![key_input(KeyCode::Delete, no_modifiers())], EditorMode::Insert), Bound::One(Action::DeleteCharForward(DeleteCharForward(1)))),
        ((seq![key_input(KeyCode::Char('d'), no_modifiers()), key_input(KeyCode::Char('d'), no_modifiers())], EditorMode::Normal), Bound::One(Action::DeleteLine(DeleteLine(1)))),
        ((seq![key_input(KeyCode::Char('d'), no_modifiers()), key_input(KeyCode::Char('w'), no_modifiers())], EditorMode::Normal), Bound::One(Action::DeleteWordForward(DeleteWordForward(1)))),
        ((seq![key_input(KeyCode::Char('d'), no_modifiers()), key_input(KeyCode::Char('W'), shift_modifier())], EditorMode::Normal), Bound::One(Action::DeleteBigWordForward(DeleteBigWordForward(1)))),
    ]
}

fn vim_6() -> (v: Vec<(KeyEventRegister, Action)>)
    ensures
        matches_table(v@, vim_6_table()),
{
    let v = vec![
        (KeyEventRegister::new(vec![KeyInput::new('{')], EditorMode::Normal), Action::MoveParagraphBackward(MoveParagraphBackward())),
        (KeyEventRegister::new(vec![KeyInput::new('{')], EditorMode::Visual), Action::MoveParagraphBackward(MoveParagraphBackward())),
        (KeyEventRegister::new(vec![KeyInput::new('o')], EditorMode::Normal), Action::Composed(Composed(vec![Action::SwitchMode(SwitchMode(EditorMode::Insert)), Action::AppendNewline(AppendNewline(1))]))),
        (KeyEventRegister::new(vec![KeyInput::shift('O')], EditorMode::Normal), Action::Composed(Composed(vec![Action::SwitchMode(SwitchMode(EditorMode::Insert)), Action::InsertNewline(InsertNewline(1))]))),
        (KeyEventRegister::new(vec![KeyInput::new(KeyCode::Enter)], EditorMode::Insert), Action::LineBreak(LineBreak(1))),
        (KeyEventRegister::new(vec![KeyInput::new('x')], EditorMode::Normal), Action::RemoveChar(RemoveChar(1))),
        (KeyEventRegister::new(vec![KeyInput::new(KeyCode::Delete)], EditorMode::Normal), Action::RemoveChar(RemoveChar(1))),
        (KeyEventRegister::new(vec![KeyInput::new(KeyCode::Backspace)], EditorMode::Insert), Action::DeleteChar(DeleteChar(1))),
        (KeyEventRegister::new(vec![KeyInput::new(KeyCode::Delete)], EditorMode::Insert), Action::DeleteCharForward(DeleteCharForward(1))),
        (KeyEventRegister::new(vec![KeyInput::new('d'), KeyInput::new('d')], EditorMode::Normal), Action::DeleteLine(DeleteLine(1))),
        (KeyEventRegister::new(vec![KeyInput::new('d'), KeyInput::new('w')], EditorMode::Normal), Action::DeleteWordForward(DeleteWordForward(1))),
        (KeyEventRegister::new(vec![KeyInput::new('d'), KeyInput::shift('W')], EditorMode::Normal), Action::DeleteBigWordForward(DeleteBigWordForward(1))),
    ];
    proof {
        let t = vim_6_table();
        assert(v@.len() == t.len());
        assert(reg_key(v@[0].0) == t[0].0 && bound_as(v@[0].1, t[0].1));
        assert(reg_key(v@[1].0) == t[1].0 && bound_as(v@[1].1, t[1].1));
        assert(reg_key(v@[2].0) == t[2].0 && bound_as(v@[2].1, t[2].1));
        assert(reg_key(v@[3].0) == t[3].0 && bound_as(v@[3].1, t[3].1));
        assert(reg_key(v@[4].0) == t[4].0 && bound_as(v@[4].1, t[4].1));
        assert(reg_key(v@[5].0) == t[5].0 && bound_as(v@[5].1, t[5].1));
        assert(reg_key(v@[6].0) == t[6].0 && bound_as(v@[6].1, t[6].1));
        assert(reg_key(v@[7].0) == t[7].0 && bound_as(v@[7].1, t[7].1));
        assert(reg_key(v@[8].0) == t[8].0 && bound_as(v@[8].1, t[8].1));
        assert(reg_key(v@[9].0) == t[9].0 && bound_as(v@[9].1, t[9].1));
        assert(reg_key(v@[10].0) == t[10].0 && bound_as(v@[10].1, t[10].1));
        assert(reg_key(v@[11].0) == t[11].0 && bound_as(v@[11].1, t[11].1));
    }
    v
}

pub open spec fn vim_7_table() -> Seq<((Seq<KeyInput>, EditorMode), Bound)> {
    seq![
        ((seq![key_input(KeyCode::Char('d'), no_modifiers()), key_input(KeyCode::Char('i'), no_modifiers()), key_input(KeyCode::Char('w'), no_modifiers())], EditorMode::Normal), Bound::One(Action::DeleteInnerWord(DeleteInnerWord))),
        ((seq![key_input(KeyCode::Char('d'), no_modifiers()), key_input(KeyCode::Char('i'), no_modifiers()), key_input(KeyCode::Char('W'), shift_modifier())], EditorMode::Normal), Bound::One(Action::DeleteInnerBigWord(DeleteInnerBigWord))),
        ((seq![key_input(KeyCode::Char('D'), shift_modifier())], EditorMode::Normal), Bound::One(Action::DeleteToEndOfLine(DeleteToEndOfLine))),
        ((seq![key_input(KeyCode::Char('d'), no_modifiers())], EditorMode::Visual), Bound::Chain(seq![Action::DeleteSelection(DeleteSelection), Action::SwitchMode(SwitchMode(EditorMode::Normal))])),
        ((seq![key_input(KeyCode::Char('J'), shift_modifier())], EditorMode::Normal), Bound::One(Action::JoinLineWithLineBelow(JoinLineWithLineBelow))),
        ((seq![key_input(KeyCode::Char('i'), no_modifiers()), key_input(KeyCode::Char('w'), no_modifiers())], EditorMode::Visual), Bound::One(Action::SelectInnerWord(SelectInnerWord))),
        ((seq![key_input(KeyCode::Char('i'), no_modifiers()), key_input(KeyCode::Char('"'), no_modifiers())], EditorMode::Visual), Bound::One(Action::SelectInnerBetween(select_inner_between('"', '"')))),
        ((seq![key_input(KeyCode::Char('i'), no_modifiers()), key_input(KeyCode::Char('\''), no_modifiers())], EditorMode::Visual), Bound::One(Action::SelectInnerBetween(select_inner_between('\'', '\'')))),
        ((seq![key_input(KeyCode::Char('i'), no_modifiers()), key_input(KeyCode::Char('('), no_modifiers())], EditorMode::Visual), Bound::One(Action::SelectInnerBetween(select_inner_between('(', ')')))),
        ((seq![key_input(KeyCode::Char('i'), no_modifiers()), key_input(KeyCode::Char(')'), no_modifiers())], EditorMode::Visual), Bound::One(Action::SelectInnerBetween(select_inner_between('(', ')')))),
        ((seq![key_input(KeyCode::Char('i'), no_modifiers()), key_input(KeyCode::Char('{'), no_modifiers())], EditorMode::Visual), Bound::One(Action::SelectInnerBetween(select_inner_between('{', '}')))),
        ((seq![key_input(KeyCode::Char('i'), no_modifiers()), key_input(KeyCode::Char('}'), no_modifiers())], EditorMode::Visual), Bound::One(Action::SelectInnerBetween(select_inner_between('{', '}')))),
    ]
}

fn vim_7() -> (v: Vec<(KeyEventRegister, Action)>)
    ensures
        matches_table(v@, vim_7_table()),
{
    let v = vec![
        (KeyEventRegister::new(vec![KeyInput::new('d'), KeyInput::new('i'), KeyInput::new('w')], EditorMode::Normal), Action::DeleteInnerWord(DeleteInnerWord)),
        (KeyEventRegister::new(vec![KeyInput::new('d'), KeyInput::new('i'), KeyInput::shift('W')], EditorMode::Normal), Action::DeleteInnerBigWord(DeleteInnerBigWord)),
        (KeyEventRegister::new(vec![KeyInput::shift('D')], EditorMode::Normal), Action::DeleteToEndOfLine(DeleteToEndOfLine)),
        (KeyEventRegister::new(vec![KeyInput::new('d')], EditorMode::Visual), Action::Composed(Composed(vec![Action::DeleteSelection(DeleteSelection), Action::SwitchMode(SwitchMode(EditorMode::Normal))]))),
        (KeyEventRegister::new(vec![KeyInput::shift('J')], EditorMode::Normal), Action::JoinLineWithLineBelow(JoinLineWithLineBelow)),
        (KeyEventRegister::new(vec![KeyInput::new('i'), KeyInput::new('w')], EditorMode::Visual), Action::SelectInnerWord(SelectInnerWord)),
        (KeyEventRegister::new(vec![KeyInput::new('i'), KeyInput::new('"')], EditorMode::Visual), Action::SelectInnerBetween(SelectInnerBetween::new('"', '"'))),
        (KeyEventRegister::new(vec![KeyInput::new('i'), KeyInput::new('\'')], EditorMode::Visual), Action::SelectInnerBetween(SelectInnerBetween::new('\'', '\''))),
        (KeyEventRegister::new(vec![KeyInput::new('i'), KeyInput::new('(')], EditorMode::Visual), Action::SelectInnerBetween(SelectInnerBetween::new('(', ')'))),
        (KeyEventRegister::new(vec![KeyInput::new('i'), KeyInput::new(')')], EditorMode::Visual), Action::SelectInnerBetween(SelectInnerBetween::new('(', ')'))),
        (KeyEventRegister::new(vec![KeyInput::new('i'), KeyInput::new('{')], EditorMode::Visual), Action::SelectInnerBetween(SelectInnerBetween::new('{', '}'))),
        (KeyEventRegister::new(vec![KeyInput::new('i'), KeyInput::new('}')], EditorMode::Visual), Action::SelectInnerBetween(SelectInnerBetween::new('{', '}'))),
    ];
    proof {
        let t = vim_7_table();
        assert(v@.len() == t.len());
        assert(reg_key(v@[0].0) == t[0].0 && bound_as(v@[0].1, t[0].1));
        assert(reg_key(v@[1].0) == t[1].0 && bound_as(v@[1].1, t[1].1));
        assert(reg_key(v@[2].0) == t[2].0 && bound_as(v@[2].1, t[2].1));
        assert(reg_key(v@[3].0) == t[3].0 && bound_as(v@[3].1, t[3].1));
        assert(reg_key(v@[4].0) == t[4].0 && bound_as(v@[4].1, t[4].1));
        assert(reg_key(v@[5].0) == t[5].0 && bound_as(v@[5].1, t[5].1));
        assert(reg_key(v@[6].0) == t[6].0 && bound_as(v@[6].1, t[6].1));
        assert(reg_key(v@[7].0) == t[7].0 && bound_as(v@[7].1, t[7].1));
        assert(reg_key(v@[8].0) == t[8].0 && bound_as(v@[8].1, t[8].1));
        assert(reg_key(v@[9].0) == t[9].0 && bound_as(v@[9].1, t[9].1));
        assert(reg_key(v@[10].0) == t[10].0 && bound_as(v@[10].1, t[10].1));
        assert(reg_key(v@[11].0) == t[11].0 && bound_as(v@[11].1, t[11].1));
    }
    v
}

pub open spec fn vim_8_table() -> Seq<((Seq<KeyInput>, EditorMode), Bound)> {
    seq![
        ((seq![key_input(KeyCode::Char('i'), no_modifiers()), key_input(KeyCode::Char('['), no_modifiers())], EditorMode::Visual), Bound::One(Action::SelectInnerBetween(select_inner_between('[', ']')))),
        ((seq![key_input(KeyCode::Char('i'), no_modifiers()), key_input(KeyCode::Char(']'), no_modifiers())], EditorMode::Visual), Bound::One(Action::SelectInnerBetween(select_inner_between('[', ']')))),
        ((seq![key_input(KeyCode::Char('c'), no_modifiers()), key_input(KeyCode::Char('w'), no_modifiers())], EditorMode::Normal), Bound::One(Action::ChangeWord(ChangeWord(1)))),
        ((seq![key_input(KeyCode::Char('c'), no_modifiers()), key_input(KeyCode::Char('W'), shift_modifier())], EditorMode::Normal), Bound::One(Action::ChangeBigWord(ChangeBigWord(1)))),
        ((seq![key_input(KeyCode::Char('c'), no_modifiers()), key_input(KeyCode::Char('i'), no_modifiers()), key_input(KeyCode::Char('w'), no_modifiers())], EditorMode::Normal), Bound::One(Action::ChangeInnerWord(ChangeInnerWord))),
        ((seq![key_input(KeyCode::Char('c'), no_modifiers()), key_input(KeyCode::Char('i'), no_modifiers()), key_input(KeyCode::Char('W'), shift_modifier())], EditorMode::Normal), Bound::One(Action::ChangeInnerBigWord(ChangeInnerBigWord))),
        ((seq![key_input(KeyCode::Char('c'), no_modifiers()), key_input(KeyCode::Char('i'), no_modifiers()), key_input(KeyCode::Char('"'), no_modifiers())], EditorMode::Normal), Bound::One(Action::ChangeInnerBetween(change_inner_between('"', '"')))),
        ((seq![key_input(KeyCode::Char('c'), no_modifiers()), key_input(KeyCode::Char('i'), no_modifiers()), key_input(KeyCode::Char('\''), no_modifiers())], EditorMode::Normal), Bound::One(Action::ChangeInnerBetween(change_inner_between('\'', '\'')))),
        ((seq![key_input(KeyCode::Char('c'), no_modifiers()), key_input(KeyCode::Char('i'), no_modifiers()), key_input(KeyCode::Char('('), no_modifiers())], EditorMode::Normal), Bound::One(Action::ChangeInnerBetween(change_inner_between('(', ')')))),
        ((seq![key_input(KeyCode::Char('c'), no_modifiers()), key_input(KeyCode::Char('i'), no_modifiers()), key_input(KeyCode::Char(')'), no_modifiers())], EditorMode::Normal), Bound::One(Action::ChangeInnerBetween(change_inner_between('(', ')')))),
        ((seq![key_input(KeyCode::Char('c'), no_modifiers()), key_input(KeyCode::Char('i'), no_modifiers()), key_input(KeyCode::Char('{'), no_modifiers())], EditorMode::Normal), Bound::One(Action::ChangeInnerBetween(change_inner_between('{', '}')))),
        ((seq![key_input(KeyCode::Char('c'), no_modifiers()), key_input(KeyCode::Char('i'), no_modifiers()), key_input(KeyCode::Char('}'), no_modifiers())], EditorMode::Normal), Bound::One(Action::ChangeInnerBetween(change_inner_between('{', '}')))),
    ]
}

fn vim_8() -> (v: Vec<(KeyEventRegister, Action)>)
    ensures
        matches_table(v@, vim_8_table()),
{
    let v = vec![
        (KeyEventRegister::new(vec![KeyInput::new('i'), KeyInput::new('[')], EditorMode::Visual), Action::SelectInnerBetween(SelectInnerBetween::new('[', ']'))),
        (KeyEventRegister::new(vec![KeyInput::new('i'), KeyInput::new(']')], EditorMode::Visual), Action::SelectInnerBetween(SelectInnerBetween::new('[', ']'))),
        (KeyEventRegister::new(vec![KeyInput::new('c'), KeyInput::new('w')], EditorMode::Normal), Action::ChangeWord(ChangeWord(1))),
        (KeyEventRegister::new(vec![KeyInput::new('c'), KeyInput::shift('W')], EditorMode::Normal), Action::ChangeBigWord(ChangeBigWord(1))),
        (KeyEventRegister::new(vec![KeyInput::new('c'), KeyInput::new('i'), KeyInput::new('w')], EditorMode::Normal), Action::ChangeInnerWord(ChangeInnerWord)),
        (KeyEventRegister::new(vec![KeyInput::new('c'), KeyInput::new('i'), KeyInput::shift('W')], EditorMode::Normal), Action::ChangeInnerBigWord(ChangeInnerBigWord)),
        (KeyEventRegister::new(vec![KeyInput::new('c'), KeyInput::new('i'), KeyInput::new('"')], EditorMode::Normal), Action::ChangeInnerBetween(ChangeInnerBetween::new('"', '"'))),
        (KeyEventRegister::new(vec![KeyInput::new('c'), KeyInput::new('i'), KeyInput::new('\'')], EditorMode::Normal), Action::ChangeInnerBetween(ChangeInnerBetween::new('\'', '\''))),
        (KeyEventRegister::new(vec![KeyInput::new('c'), KeyInput::new('i'), KeyInput::new('(')], EditorMode::Normal), Action::ChangeInnerBetween(ChangeInnerBetween::new('(', ')'))),
        (KeyEventRegister::new(vec![KeyInput::new('c'), KeyInput::new('i'), KeyInput::new(')')], EditorMode::Normal), Action::ChangeInnerBetween(ChangeInnerBetween::new('(', ')'))),
        (KeyEventRegister::new(vec![KeyInput::new('c'), KeyInput::new('i'), KeyInput::new('{')], EditorMode::Normal), Action::ChangeInnerBetween(ChangeInnerBetween::new('{', '}'))),
        (KeyEventRegister::new(vec![KeyInput::new('c'), KeyInput::new('i'), KeyInput::new('}')], EditorMode::Normal), Action::ChangeInnerBetween(ChangeInnerBetween::new('{', '}'))),
    ];
    proof {
        let t = vim_8_table();
        assert(v@.len() == t.len());
        assert(reg_key(v@[0].0) == t[0].0 && bound_as(v@[0].1, t[0].1));
        assert(reg_key(v@[1].0) == t[1].0 && bound_as(v@[1].1, t[1].1));
        assert(reg_key(v@[2].0) == t[2].0 && bound_as(v@[2].1, t[2].1));
        assert(reg_key(v@[3].0) == t[3].0 && bound_as(v@[3].1, t[3].1));
        assert(reg_key(v@[4].0) == t[4].0 && bound_as(v@[4].1, t[4].1));
        assert(reg_key(v@[5].0) == t[5].0 && bound_as(v@[5].1, t[5].1));
        assert(reg_key(v@[6].0) == t[6].0 && bound_as(v@[6].1, t[6].1));
        assert(reg_key(v@[7].0) == t[7].0 && bound_as(v@[7].1, t[7].1));
        assert(reg_key(v@[8].0) == t[8].0 && bound_as(v@[8].1, t[8].1));
        assert(reg_key(v@[9].0) == t[9].0 && bound_as(v@[9].1, t[9].1));
        assert(reg_key(v@[10].0) == t[10].0 && bound_as(v@[10].1, t[10].1));
        assert(reg_key(v@[11].0) == t[11].0 && bound_as(v@[11].1, t[11].1));
    }
    v
}

pub open spec fn vim_9_table() -> Seq<((Seq<KeyInput>, EditorMode), Bound)> {
    seq![
        ((seq![key_input(KeyCode::Char('c'), no_modifiers()), key_input(KeyCode::Char('i'), no_modifiers()), key_input(KeyCode::Char('['), no_modifiers())], EditorMode::Normal), Bound::One(Action::ChangeInnerBetween(change_inner_between('[', ']')))),
        ((seq![key_input(KeyCode::Char('c'), no_modifiers()), key_input(KeyCode::Char('i'), no_modifiers()), key_input(KeyCode::Char(']'), no_modifiers())], EditorMode::Normal), Bound::One(Action::ChangeInnerBetween(change_inner_between('[', ']')))),
        ((seq![key_input(KeyCode::Char('d'), no_modifiers()), key_input(KeyCode::Char('i'), no_modifiers()), key_input(KeyCode::Char('"'), no_modifiers())], EditorMode::Normal), Bound::One(Action::DeleteInnerBetween(delete_inner_between('"', '"')))),
        ((seq![key_input(KeyCode::Char('d'), no_modifiers()), key_input(KeyCode::Char('i'), no_modifiers()), key_input(KeyCode::Char('\''), no_modifiers())], EditorMode::Normal), Bound::One(Action::DeleteInnerBetween(delete_inner_between('\'', '\'')))),
        ((seq![key_input(KeyCode::Char('d'), no_modifiers()), key_input(KeyCode::Char('i'), no_modifiers()), key_input(KeyCode::Char('('), no_modifiers())], EditorMode::Normal), Bound::One(Action::DeleteInnerBetween(delete_inner_between('(', ')')))),
        ((seq![key_input(KeyCode::Char('d'), no_modifiers()), key_input(KeyCode::Char('i'), no_modifiers()), key_input(KeyCode::Char(')'), no_modifiers())], EditorMode::Normal), Bound::One(Action::DeleteInnerBetween(delete_inner_between('(', ')')))),
        ((seq![key_input(KeyCode::Char('d'), no_modifiers()), key_input(KeyCode::Char('i'), no_modifiers()), key_input(KeyCode::Char('{'), no_modifiers())], EditorMode::Normal), Bound::One(Action::DeleteInnerBetween(delete_inner_between('{', '}')))),
        ((seq![key_input(KeyCode::Char('d'), no_modifiers()), key_input(KeyCode::Char('i'), no_modifiers()), key_input(KeyCode::Char('}'), no_modifiers())], EditorMode::Normal), Bound::One(Action::DeleteInnerBetween(delete_inner_between('{', '}')))),
        ((seq![key_input(KeyCode::Char('d'), no_modifiers()), key_input(KeyCode::Char('i'), no_modifiers()), key_input(KeyCode::Char('['), no_modifiers())], EditorMode::Normal), Bound::One(Action::DeleteInnerBetween(delete_inner_between('[', ']')))),
        ((seq![key_input(KeyCode::Char('d'), no_modifiers()), key_input(KeyCode::Char('i'), no_modifiers()), key_input(KeyCode::Char(']'), no_modifiers())], EditorMode::Normal), Bound::One(Action::DeleteInnerBetween(delete_inner_between('[', ']')))),
        ((seq![key_input(KeyCode::Char('c'), no_modifiers())], EditorMode::Visual), Bound::Chain(seq![Action::SwitchMode(SwitchMode(EditorMode::Insert)), Action::ChangeSelection(ChangeSelection)])),
        ((seq![key_input(KeyCode::Char('x'), no_modifiers())], EditorMode::Visual), Bound::Chain(seq![Action::ChangeSelection(ChangeSelection), Action::SwitchMode(SwitchMode(EditorMode::Normal))])),
    ]
}

fn vim_9() -> (v: Vec<(KeyEventRegister, Action)>)
    ensures
        matches_table(v@, vim_9_table()),
{
    let v = vec![
        (KeyEventRegister::new(vec![KeyInput::new('c'), KeyInput::new('i'), KeyInput::new('[')], EditorMode::Normal), Action::ChangeInnerBetween(ChangeInnerBetween::new('[', ']'))),
        (KeyEventRegister::new(vec![KeyInput::new('c'), KeyInput::new('i'), KeyInput::new(']')], EditorMode::Normal), Action::ChangeInnerBetween(ChangeInnerBetween::new('[', ']'))),
        (KeyEventRegister::new(vec![KeyInput::new('d'), KeyInput::new('i'), KeyInput::new('"')], EditorMode::Normal), Action::DeleteInnerBetween(DeleteInnerBetween::new('"', '"'))),
        (KeyEventRegister::new(vec![KeyInput::new('d'), KeyInput::new('i'), KeyInput::new('\'')], EditorMode::Normal), Action::DeleteInnerBetween(DeleteInnerBetween::new('\'', '\''))),
        (KeyEventRegister::new(vec![KeyInput::new('d'), KeyInput::new('i'), KeyInput::new('(')], EditorMode::Normal), Action::DeleteInnerBetween(DeleteInnerBetween::new('(', ')'))),
        (KeyEventRegister::new(vec![KeyInput::new('d'), KeyInput::new('i'), KeyInput::new(')')], EditorMode::Normal), Action::DeleteInnerBetween(DeleteInnerBetween::new('(', ')'))),
        (KeyEventRegister::new(vec![KeyInput::new('d'), KeyInput::new('i'), KeyInput::new('{')], EditorMode::Normal), Action::DeleteInnerBetween(DeleteInnerBetween::new('{', '}'))),
        (KeyEventRegister::new(vec![KeyInput::new('d'), KeyInput::new('i'), KeyInput::new('}')], EditorMode::Normal), Action::DeleteInnerBetween(DeleteInnerBetween::new('{', '}'))),
        (KeyEventRegister::new(vec![KeyInput::new('d'), KeyInput::new('i'), KeyInput::new('[')], EditorMode::Normal), Action::DeleteInnerBetween(DeleteInnerBetween::new('[', ']'))),
        (KeyEventRegister::new(vec![KeyInput::new('d'), KeyInput::new('i'), KeyInput::new(']')], EditorMode::Normal), Action::DeleteInnerBetween(DeleteInnerBetween::new('[', ']'))),
        (KeyEventRegister::new(vec![KeyInput::new('c')], EditorMode::Visual), Action::Composed(Composed(vec![Action::SwitchMode(SwitchMode(EditorMode::Insert)), Action::ChangeSelection(ChangeSelection)]))),
        (KeyEventRegister::new(vec![KeyInput::new('x')], EditorMode::Visual), Action::Composed(Composed(vec![Action::ChangeSelection(ChangeSelection), Action::SwitchMode(SwitchMode(EditorMode::Normal))]))),
    ];
    proof {
        let t = vim_9_table();
        assert(v@.len() == t.len());
        assert(reg_key(v@[0].0) == t[0].0 && bound_as(v@[0].1, t[0].1));
        assert(reg_key(v@[1].0) == t[1].0 && bound_as(v@[1].1, t[1].1));
        assert(reg_key(v@[2].0) == t[2].0 && bound_as(v@[2].1, t[2].1));
        assert(reg_key(v@[3].0) == t[3].0 && bound_as(v@[3].1, t[3].1));
        assert(reg_key(v@[4].0) == t[4].0 && bound_as(v@[4].1, t[4].1));
        assert(reg_key(v@[5].0) == t[5].0 && bound_as(v@[5].1, t[5].1));
        assert(reg_key(v@[6].0) == t[6].0 && bound_as(v@[6].1, t[6].1));
        assert(reg_key(v@[7].0) == t[7].0 && bound_as(v@[7].1, t[7].1));
        assert(reg_key(v@[8].0) == t[8].0 && bound_as(v@[8].1, t[8].1));
        assert(reg_key(v@[9].0) == t[9].0 && bound_as(v@[9].1, t[9].1));
        assert(reg_key(v@[10].0) == t[10].0 && bound_as(v@[10].1, t[10].1));
        assert(reg_key(v@[11].0) == t[11].0 && bound_as(v@[11].1, t[11].1));
    }
    v
}

pub open spec fn vim_10_table() -> Seq<((Seq<KeyInput>, EditorMode), Bound)> {
    seq![
        ((seq![key_input(KeyCode::Char('V'), shift_modifier())], EditorMode::Normal), Bound::One(Action::SelectLine(SelectLine))),
        ((seq![key_input(KeyCode::Char('u'), no_modifiers())], EditorMode::Normal), Bound::One(Action::Undo(Undo))),
        ((seq![key_input(KeyCode::Char('r'), ctrl_modifier())], EditorMode::Normal), Bound::One(Action::Redo(Redo))),
        ((seq![key_input(KeyCode::Char('r'), no_modifiers())], EditorMode::Normal), Bound::One(Action::Redo(Redo))),
        ((seq![key_input(KeyCode::Char('.'), no_modifiers())], EditorMode::Normal), Bound::One(Action::RepeatLastChange(RepeatLastChange))),
        ((seq![key_input(KeyCode::Char('y'), no_modifiers())], EditorMode::Visual), Bound::Chain(seq![Action::CopySelection(CopySelection), Action::SwitchMode(SwitchMode(EditorMode::Normal))])),
        ((seq![key_input(KeyCode::Char('y'), no_modifiers()), key_input(KeyCode::Char('y'), no_modifiers())], EditorMode::Normal), Bound::One(Action::CopyLine(CopyLine))),
        ((seq![key_input(KeyCode::Char('p'), no_modifiers())], EditorMode::Normal), Bound::One(Action::Paste(Paste))),
        ((seq![key_input(KeyCode::Char('p'), no_modifiers())], EditorMode::Visual), Bound::Chain(seq![Action::PasteOverSelection(PasteOverSelection), Action::SwitchMode(SwitchMode(EditorMode::Normal))])),
        ((seq![key_input(KeyCode::Char('e'), ctrl_modifier())], EditorMode::Normal), Bound::One(Action::OpenSystemEditor(OpenSystemEditor))),
    ]
}

fn vim_10() -> (v: Vec<(KeyEventRegister, Action)>)
    ensures
        matches_table(v@, vim_10_table()),
{
    let v = vec![
        (KeyEventRegister::new(vec![KeyInput::shift('V')], EditorMode::Normal), Action::SelectLine(SelectLine)),
        (KeyEventRegister::new(vec![KeyInput::new('u')], EditorMode::Normal), Action::Undo(Undo)),
        (KeyEventRegister::new(vec![KeyInput::ctrl('r')], EditorMode::Normal), Action::Redo(Redo)),
        (KeyEventRegister::new(vec![KeyInput::new('r')], EditorMode::Normal), Action::Redo(Redo)),
        (KeyEventRegister::new(vec![KeyInput::new('.')], EditorMode::Normal), Action::RepeatLastChange(RepeatLastChange)),
        (KeyEventRegister::new(vec![KeyInput::new('y')], EditorMode::Visual), Action::Composed(Composed(vec![Action::CopySelection(CopySelection), Action::SwitchMode(SwitchMode(EditorMode::Normal))]))),
        (KeyEventRegister::new(vec![KeyInput::new('y'), KeyInput::new('y')], EditorMode::Normal), Action::CopyLine(CopyLine)),
        (KeyEventRegister::new(vec![KeyInput::new('p')], EditorMode::Normal), Action::Paste(Paste)),
        (KeyEventRegister::new(vec![KeyInput::new('p')], EditorMode::Visual), Action::Composed(Composed(vec![Action::PasteOverSelection(PasteOverSelection), Action::SwitchMode(SwitchMode(EditorMode::Normal))]))),
        (KeyEventRegister::new(vec![KeyInput::ctrl('e')], EditorMode::Normal), Action::OpenSystemEditor(OpenSystemEditor)),
    ];
    proof {
        let t = vim_10_table();
        assert(v@.len() == t.len());
        assert(reg_key(v@[0].0) == t[0].0 && bound_as(v@[0].1, t[0].1));
        assert(reg_key(v@[1].0) == t[1].0 && bound_as(v@[1].1, t[1].1));
        assert(reg_key(v@[2].0) == t[2].0 && bound_as(v@[2].1, t[2].1));
        assert(reg_key(v@[3].0) == t[3].0 && bound_as(v@[3].1, t[3].1));
        assert(reg_key(v@[4].0) == t[4].0 && bound_as(v@[4].1, t[4].1));
        assert(reg_key(v@[5].0) == t[5].0 && bound_as(v@[5].1, t[5].1));
        assert(reg_key(v@[6].0) == t[6].0 && bound_as(v@[6].1, t[6].1));
        assert(reg_key(v@[7].0) == t[7].0 && bound_as(v@[7].1, t[7].1));
        assert(reg_key(v@[8].0) == t[8].0 && bound_as(v@[8].1, t[8].1));
        assert(reg_key(v@[9].0) == t[9].0 && bound_as(v@[9].1, t[9].1));
    }
    v
}

/// The entries of the Vim-like key map.
pub open spec fn vim_table() -> Seq<((Seq<KeyInput>, EditorMode), Bound)> {
    vim_0_table() + vim_1_table() + vim_2_table() + vim_3_table() + vim_4_table() + vim_5_table() + vim_6_table() + vim_7_table() + vim_8_table() + vim_9_table() + vim_10_table()
}

/// The bindings of the Vim-like key map.
pub fn vim_keybindings() -> (v: Vec<(KeyEventRegister, Action)>)
    ensures
        matches_table(v@, vim_table()),
        vim_plain_keys_bound(to_map(v@)),
        vim_more_keys_bound(to_map(v@)),
{
    let mut v = vim_0();
    let ghost mut t = vim_0_table();
    let mut part = vim_1();
    proof {
        lemma_matches_concat(v@, t, part@, vim_1_table());
        t = t + vim_1_table();
    }
    v.append(&mut part);
    let mut part = vim_2();
    proof {
        lemma_matches_concat(v@, t, part@, vim_2_table());
        t = t + vim_2_table();
    }
    v.append(&mut part);
    let mut part = vim_3();
    proof {
        lemma_matches_concat(v@, t, part@, vim_3_table());
        t = t + vim_3_table();
    }
    v.append(&mut part);
    let mut part = vim_4();
    proof {
        lemma_matches_concat(v@, t, part@, vim_4_table());
        t = t + vim_4_table();
    }
    v.append(&mut part);
    let mut part = vim_5();
    proof {
        lemma_matches_concat(v@, t, part@, vim_5_table());
        t = t + vim_5_table();
    }
    v.append(&mut part);
    let mut part = vim_6();
    proof {
        lemma_matches_concat(v@, t, part@, vim_6_table());
        t = t + vim_6_table();
    }
    v.append(&mut part);
    let mut part = vim_7();
    proof {
        lemma_matches_concat(v@, t, part@, vim_7_table());
        t = t + vim_7_table();
    }
    v.append(&mut part);
    let mut part = vim_8();
    proof {
        lemma_matches_concat(v@, t, part@, vim_8_table());
        t = t + vim_8_table();
    }
    v.append(&mut part);
    let mut part = vim_9();
    proof {
        lemma_matches_concat(v@, t, part@, vim_9_table());
        t = t + vim_9_table();
    }
    v.append(&mut part);
    let mut part = vim_10();
    proof {
        lemma_matches_concat(v@, t, part@, vim_10_table());
        t = t + vim_10_table();
    }
    v.append(&mut part);
    proof {
        assert(t =~= vim_table());
        lemma_vim_normal_keys(v@);
        lemma_vim_more_keys(v@);
    }
    v
}

pub open spec fn emacs_0_table() -> Seq<((Seq<KeyInput>, EditorMode), Bound)> {
    seq![
        ((seq![key_input(KeyCode::Char('s'), ctrl_modifier())], EditorMode::Insert), Bound::Chain(seq![Action::StartSearch(StartSearch), Action::SwitchMode(SwitchMode(EditorMode::Search))])),
        ((seq![key_input(KeyCode::Char('s'), ctrl_modifier())], EditorMode::Search), Bound::One(Action::FindNext(FindNext))),
        ((seq![key_input(KeyCode::Char('r'), ctrl_modifier())], EditorMode::Search), Bound::One(Action::FindPrevious(FindPrevious))),
        ((seq![key_input(KeyCode::Enter, no_modifiers())], EditorMode::Search), Bound::Chain(seq![Action::SelectCurrentSearch(SelectCurrentSearch), Action::SwitchMode(SwitchMode(EditorMode::Insert))])),
        ((seq![key_input(KeyCode::Char('g'), ctrl_modifier())], EditorMode::Search), Bound::Chain(seq![Action::StopSearch(StopSearch), Action::SwitchMode(SwitchMode(EditorMode::Insert))])),
        ((seq![key_input(KeyCode::Backspace, no_modifiers())], EditorMode::Search), Bound::One(Action::DeleteFromSearch(DeleteFromSearch))),
        ((seq![key_input(KeyCode::Char('f'), ctrl_modifier())], EditorMode::Insert), Bound::One(Action::MoveForward(MoveForward(1)))),
        ((seq![key_input(KeyCode::Right, no_modifiers())], EditorMode::Insert), Bound::One(Action::MoveForward(MoveForward(1)))),
        ((seq![key_input(KeyCode::Char('b'), ctrl_modifier())], EditorMode::Insert), Bound::One(Action::MoveBackward(MoveBackward(1)))),
        ((seq![key_input(KeyCode::Left, no_modifiers())], EditorMode::Insert), Bound::One(Action::MoveBackward(MoveBackward(1)))),
        ((seq![key_input(KeyCode::Char('p'), ctrl_modifier())], EditorMode::Insert), Bound::One(Action::MoveUp(MoveUp(1)))),
        ((seq![key_input(KeyCode::Up, no_modifiers())], EditorMode::Insert), Bound::One(Action::MoveUp(MoveUp(1)))),
    ]
}

fn emacs_0() -> (v: Vec<(KeyEventRegister, Action)>)
    ensures
        matches_table(v@, emacs_0_table()),
{
    let v = vec![
        (KeyEventRegister::new(vec![KeyInput::ctrl('s')], EditorMode::Insert), Action::Composed(Composed(vec![Action::StartSearch(StartSearch), Action::SwitchMode(SwitchMode(EditorMode::Search))]))),
        (KeyEventRegister::new(vec![KeyInput::ctrl('s')], EditorMode::Search), Action::FindNext(FindNext)),
        (KeyEventRegister::new(vec![KeyInput::ctrl('r')], EditorMode::Search), Action::FindPrevious(FindPrevious)),
        (KeyEventRegister::new(vec![KeyInput::new(KeyCode::Enter)], EditorMode::Search), Action::Composed(Composed(vec![Action::SelectCurrentSearch(SelectCurrentSearch), Action::SwitchMode(SwitchMode(EditorMode::Insert))]))),
        (KeyEventRegister::new(vec![KeyInput::ctrl('g')], EditorMode::Search), Action::Composed(Composed(vec![Action::StopSearch(StopSearch), Action::SwitchMode(SwitchMode(EditorMode::Insert))]))),
        (KeyEventRegister::new(vec![KeyInput::new(KeyCode::Backspace)], EditorMode::Search), Action::DeleteFromSearch(DeleteFromSearch)),
        (KeyEventRegister::new(vec![KeyInput::ctrl('f')], EditorMode::Insert), Action::MoveForward(MoveForward(1))),
        (KeyEventRegister::new(vec![KeyInput::new(KeyCode::Right)], EditorMode::Insert), Action::MoveForward(MoveForward(1))),
        (KeyEventRegister::new(vec![KeyInput::ctrl('b')], EditorMode::Insert), Action::MoveBackward(MoveBackward(1))),
        (KeyEventRegister::new(vec![KeyInput::new(KeyCode::Left)], EditorMode::Insert), Action::MoveBackward(MoveBackward(1))),
        (KeyEventRegister::new(vec![KeyInput::ctrl('p')], EditorMode::Insert), Action::MoveUp(MoveUp(1))),
        (KeyEventRegister::new(vec![KeyInput::new(KeyCode::Up)], EditorMode::Insert), Action::MoveUp(MoveUp(1))),
    ];
    proof {
        let t = emacs_0_table();
        assert(v@.len() == t.len());
        assert(reg_key(v@[0].0) == t[0].0 && bound_as(v@[0].1, t[0].1));
        assert(reg_key(v@[1].0) == t[1].0 && bound_as(v@[1].1, t[1].1));
        assert(reg_key(v@[2].0) == t[2].0 && bound_as(v@[2].1, t[2].1));
        assert(reg_key(v@[3].0) == t[3].0 && bound_as(v@[3].1, t[3].1));
        assert(reg_key(v@[4].0) == t[4].0 && bound_as(v@[4].1, t[4].1));
        assert(reg_key(v@[5].0) == t[5].0 && bound_as(v@[5].1, t[5].1));
        assert(reg_key(v@[6].0) == t[6].0 && bound_as(v@[6].1, t[6].1));
        assert(reg_key(v@[7].0) == t[7].0 && bound_as(v@[7].1, t[7].1));
        assert(reg_key(v@[8].0) == t[8].0 && bound_as(v@[8].1, t[8].1));
        assert(reg_key(v@[9].0) == t[9].0 && bound_as(v@[9].1, t[9].1));
        assert(reg_key(v@[10].0) == t[10].0 && bound_as(v@[10].1, t[10].1));
        assert(reg_key(v@[11].0) == t[11].0 && bound_as(v@[11].1, t[11].1));
    }
    v
}

pub open spec fn emacs_1_table() -> Seq<((Seq<KeyInput>, EditorMode), Bound)> {
    seq![
        ((seq![key_input(KeyCode::Char('n'), ctrl_modifier())], EditorMode::Insert), Bound::One(Action::MoveDown(MoveDown(1)))),
        ((seq![key_input(KeyCode::Down, no_modifiers())], EditorMode::Insert), Bound::One(Action::MoveDown(MoveDown(1)))),
        ((seq![key_input(KeyCode::Char('f'), alt_modifier())], EditorMode::Insert), Bound::One(Action::MoveWordForward(MoveWordForward(1)))),
        ((seq![key_input(KeyCode::Char('b'), alt_modifier())], EditorMode::Insert), Bound::One(Action::MoveWordBackward(MoveWordBackward(1)))),
        ((seq![key_input(KeyCode::Right, ctrl_modifier())], EditorMode::Insert), Bound::One(Action::MoveWordForward(MoveWordForward(1)))),
        ((seq![key_input(KeyCode::Left, ctrl_modifier())], EditorMode::Insert), Bound::One(Action::MoveWordBackward(MoveWordBackward(1)))),
        ((seq![key_input(KeyCode::Char('v'), ctrl_modifier())], EditorMode::Insert), Bound::One(Action::MoveHalfPageDown(MoveHalfPageDown()))),
        ((seq![key_input(KeyCode::Char('v'), alt_modifier())], EditorMode::Insert), Bound::One(Action::MoveHalfPageUp(MoveHalfPageUp()))),
        ((seq![key_input(KeyCode::PageDown, no_modifiers())], EditorMode::Insert), Bound::One(Action::MovePageDown(MovePageDown()))),
        ((seq![key_input(KeyCode::PageUp, no_modifiers())], EditorMode::Insert), Bound::One(Action::MovePageUp(MovePageUp()))),
        ((seq![key_input(KeyCode::Char('<'), alt_modifier())], EditorMode::Insert), Bound::One(Action::MoveToFirstRow(MoveToFirstRow()))),
        ((seq![key_input(KeyCode::Char('>'), alt_modifier())], EditorMode::Insert), Bound::One(Action::MoveToLastRow(MoveToLastRow()))),
    ]
}

fn emacs_1() -> (v: Vec<(KeyEventRegister, Action)>)
    ensures
        matches_table(v@, emacs_1_table()),
{
    let v = vec![
        (KeyEventRegister::new(vec![KeyInput::ctrl('n')], EditorMode::Insert), Action::MoveDown(MoveDown(1))),
        (KeyEventRegister::new(vec![KeyInput::new(KeyCode::Down)], EditorMode::Insert), Action::MoveDown(MoveDown(1))),
        (KeyEventRegister::new(vec![KeyInput::alt('f')], EditorMode::Insert), Action::MoveWordForward(MoveWordForward(1))),
        (KeyEventRegister::new(vec![KeyInput::alt('b')], EditorMode::Insert), Action::MoveWordBackward(MoveWordBackward(1))),
        (KeyEventRegister::new(vec![KeyInput::ctrl(KeyCode::Right)], EditorMode::Insert), Action::MoveWordForward(MoveWordForward(1))),
        (KeyEventRegister::new(vec![KeyInput::ctrl(KeyCode::Left)], EditorMode::Insert), Action::MoveWordBackward(MoveWordBackward(1))),
        (KeyEventRegister::new(vec![KeyInput::ctrl('v')], EditorMode::Insert), Action::MoveHalfPageDown(MoveHalfPageDown())),
        (KeyEventRegister::new(vec![KeyInput::alt('v')], EditorMode::Insert), Action::MoveHalfPageUp(MoveHalfPageUp())),
        (KeyEventRegister::new(vec![KeyInput::new(KeyCode::PageDown)], EditorMode::Insert), Action::MovePageDown(MovePageDown())),
        (KeyEventRegister::new(vec![KeyInput::new(KeyCode::PageUp)], EditorMode::Insert), Action::MovePageUp(MovePageUp())),
        (KeyEventRegister::new(vec![KeyInput::alt('<')], EditorMode::Insert), Action::MoveToFirstRow(MoveToFirstRow())),
        (KeyEventRegister::new(vec![KeyInput::alt('>')], EditorMode::Insert), Action::MoveToLastRow(MoveToLastRow())),
    ];
    proof {
        let t = emacs_1_table();
        assert(v@.len() == t.len());
        assert(reg_key(v@[0].0) == t[0].0 && bound_as(v@[0].1, t[0].1));
        assert(reg_key(v@[1].0) == t[1].0 && bound_as(v@[1].1, t[1].1));
        assert(reg_key(v@[2].0) == t[2].0 && bound_as(v@[2].1, t[2].1));
        assert(reg_key(v@[3].0) == t[3].0 && bound_as(v@[3].1, t[3].1));
        assert(reg_key(v@[4].0) == t[4].0 && bound_as(v@[4].1, t[4].1));
        assert(reg_key(v@[5].0) == t[5].0 && bound_as(v@[5].1, t[5].1));
        assert(reg_key(v@[6].0) == t[6].0 && bound_as(v@[6].1, t[6].1));
        assert(reg_key(v@[7].0) == t[7].0 && bound_as(v@[7].1, t[7].1));
        assert(reg_key(v@[8].0) == t[8].0 && bound_as(v@[8].1, t[8].1));
        assert(reg_key(v@[9].0) == t[9].0 && bound_as(v@[9].1, t[9].1));
        assert(reg_key(v@[10].0) == t[10].0 && bound_as(v@[10].1, t[10].1));
        assert(reg_key(v@[11].0) == t[11].0 && bound_as(v@[11].1, t[11].1));
    }
    v
}

pub open spec fn emacs_2_table() -> Seq<((Seq<KeyInput>, EditorMode), Bound)> {
    seq![
        ((seq![key_input(KeyCode::Char('a'), ctrl_modifier())], EditorMode::Insert), Bound::One(Action::MoveToStartOfLine(MoveToStartOfLine()))),
        ((seq![key_input(KeyCode::Home, no_modifiers())], EditorMode::Insert), Bound::One(Action::MoveToStartOfLine(MoveToStartOfLine()))),
        ((seq![key_input(KeyCode::End, no_modifiers())], EditorMode::Insert), Bound::One(Action::MoveToEndOfLine(MoveToEndOfLine()))),
        ((seq![key_input(KeyCode::Char('e'), ctrl_modifier())], EditorMode::Insert), Bound::One(Action::MoveToEndOfLine(MoveToEndOfLine()))),
        ((seq![key_input(KeyCode::Char('u'), alt_modifier())], EditorMode::Insert), Bound::One(Action::DeleteToFirstCharOfLine(DeleteToFirstCharOfLine))),
        ((seq![key_input(KeyCode::Char('k'), ctrl_modifier())], EditorMode::Insert), Bound::One(Action::DeleteToEndOfLine(DeleteToEndOfLine))),
        ((seq![key_input(KeyCode::Char('o'), ctrl_modifier())], EditorMode::Insert), Bound::Chain(seq![Action::LineBreak(LineBreak(1)), Action::MoveUp(MoveUp(1)), Action::MoveToEndOfLine(MoveToEndOfLine())])),
        ((seq![key_input(KeyCode::Enter, no_modifiers())], EditorMode::Insert), Bound::One(Action::LineBreak(LineBreak(1)))),
        ((seq![key_input(KeyCode::Char('j'), ctrl_modifier())], EditorMode::Insert), Bound::One(Action::LineBreak(LineBreak(1)))),
        ((seq![key_input(KeyCode::Backspace, no_modifiers())], EditorMode::Insert), Bound::One(Action::DeleteChar(DeleteChar(1)))),
        ((seq![key_input(KeyCode::Char('h'), ctrl_modifier())], EditorMode::Insert), Bound::One(Action::DeleteChar(DeleteChar(1)))),
        ((seq![key_input(KeyCode::Delete, no_modifiers())], EditorMode::Insert), Bound::One(Action::DeleteCharForward(DeleteCharForward(1)))),
    ]
}

fn emacs_2() -> (v: Vec<(KeyEventRegister, Action)>)
    ensures
        matches_table(v@, emacs_2_table()),
{
    let v = vec![
        (KeyEventRegister::new(vec![KeyInput::ctrl('a')], EditorMode::Insert), Action::MoveToStartOfLine(MoveToStartOfLine())),
        (KeyEventRegister::new(vec![KeyInput::new(KeyCode::Home)], EditorMode::Insert), Action::MoveToStartOfLine(MoveToStartOfLine())),
        (KeyEventRegister::new(vec![KeyInput::new(KeyCode::End)], EditorMode::Insert), Action::MoveToEndOfLine(MoveToEndOfLine())),
        (KeyEventRegister::new(vec![KeyInput::ctrl('e')], EditorMode::Insert), Action::MoveToEndOfLine(MoveToEndOfLine())),
        (KeyEventRegister::new(vec![KeyInput::alt('u')], EditorMode::Insert), Action::DeleteToFirstCharOfLine(DeleteToFirstCharOfLine)),
        (KeyEventRegister::new(vec![KeyInput::ctrl('k')], EditorMode::Insert), Action::DeleteToEndOfLine(DeleteToEndOfLine)),
        (KeyEventRegister::new(vec![KeyInput::ctrl('o')], EditorMode::Insert), Action::Composed(Composed(vec![Action::LineBreak(LineBreak(1)), Action::MoveUp(MoveUp(1)), Action::MoveToEndOfLine(MoveToEndOfLine())]))),
        (KeyEventRegister::new(vec![KeyInput::new(KeyCode::Enter)], EditorMode::Insert), Action::LineBreak(LineBreak(1))),
        (KeyEventRegister::new(vec![KeyInput::ctrl('j')], EditorMode::Insert), Action::LineBreak(LineBreak(1))),
        (KeyEventRegister::new(vec![KeyInput::new(KeyCode::Backspace)], EditorMode::Insert), Action::DeleteChar(DeleteChar(1))),
        (KeyEventRegister::new(vec![KeyInput::ctrl('h')], EditorMode::Insert), Action::DeleteChar(DeleteChar(1))),
        (KeyEventRegister::new(vec![KeyInput::new(KeyCode::Delete)], EditorMode::Insert), Action::DeleteCharForward(DeleteCharForward(1))),
    ];
    proof {
        let t = emacs_2_table();
        assert(v@.len() == t.len());
        assert(reg_key(v@[0].0) == t[0].0 && bound_as(v@[0].1, t[0].1));
        assert(reg_key(v@[1].0) == t[1].0 && bound_as(v@[1].1, t[1].1));
        assert(reg_key(v@[2].0) == t[2].0 && bound_as(v@[2].1, t[2].1));
        assert(reg_key(v@[3].0) == t[3].0 && bound_as(v@[3].1, t[3].1));
        assert(reg_key(v@[4].0) == t[4].0 && bound_as(v@[4].1, t[4].1));
        assert(reg_key(v@[5].0) == t[5].0 && bound_as(v@[5].1, t[5].1));
        assert(reg_key(v@[6].0) == t[6].0 && bound_as(v@[6].1, t[6].1));
        assert(reg_key(v@[7].0) == t[7].0 && bound_as(v@[7].1, t[7].1));
        assert(reg_key(v@[8].0) == t[8].0 && bound_as(v@[8].1, t[8].1));
        assert(reg_key(v@[9].0) == t[9].0 && bound_as(v@[9].1, t[9].1));
        assert(reg_key(v@[10].0) == t[10].0 && bound_as(v@[10].1, t[10].1));
        assert(reg_key(v@[11].0) == t[11].0 && bound_as(v@[11].1, t[11].1));
    }
    v
}

pub open spec fn emacs_3_table() -> Seq<((Seq<KeyInput>, EditorMode), Bound)> {
    seq![
        ((seq![key_input(KeyCode::Char('d'), ctrl_modifier())], EditorMode::Insert), Bound::One(Action::DeleteCharForward(DeleteCharForward(1)))),
        ((seq![key_input(KeyCode::Char('d'), alt_modifier())], EditorMode::Insert), Bound::One(Action::DeleteWordForward(DeleteWordForward(1)))),
        ((seq![key_input(KeyCode::Backspace, alt_modifier())], EditorMode::Insert), Bound::One(Action::DeleteWordBackward(DeleteWordBackward(1)))),
        ((seq![key_input(KeyCode::Char('u'), ctrl_modifier())], EditorMode::Insert), Bound::One(Action::Undo(Undo))),
        ((seq![key_input(KeyCode::Char('r'), ctrl_modifier())], EditorMode::Insert), Bound::One(Action::Redo(Redo))),
        ((seq![key_input(KeyCode::Char('y'), ctrl_modifier())], EditorMode::Insert), Bound::One(Action::Paste(Paste))),
        ((seq![key_input(KeyCode::Char('e'), alt_modifier())], EditorMode::Insert), Bound::One(Action::OpenSystemEditor(OpenSystemEditor))),
    ]
}

fn emacs_3() -> (v: Vec<(KeyEventRegister, Action)>)
    ensures
        matches_table(v@, emacs_3_table()),
{
    let v = vec![
        (KeyEventRegister::new(vec![KeyInput::ctrl('d')], EditorMode::Insert), Action::DeleteCharForward(DeleteCharForward(1))),
        (KeyEventRegister::new(vec![KeyInput::alt('d')], EditorMode::Insert), Action::DeleteWordForward(DeleteWordForward(1))),
        (KeyEventRegister::new(vec![KeyInput::alt(KeyCode::Backspace)], EditorMode::Insert), Action::DeleteWordBackward(DeleteWordBackward(1))),
        (KeyEventRegister::new(vec![KeyInput::ctrl('u')], EditorMode::Insert), Action::Undo(Undo)),
        (KeyEventRegister::new(vec![KeyInput::ctrl('r')], EditorMode::Insert), Action::Redo(Redo)),
        (KeyEventRegister::new(vec![KeyInput::ctrl('y')], EditorMode::Insert), Action::Paste(Paste)),
        (KeyEventRegister::new(vec![KeyInput::alt('e')], EditorMode::Insert), Action::OpenSystemEditor(OpenSystemEditor)),
    ];
    proof {
        let t = emacs_3_table();
        assert(v@.len() == t.len());
        assert(reg_key(v@[0].0) == t[0].0 && bound_as(v@[0].1, t[0].1));
        assert(reg_key(v@[1].0) == t[1].0 && bound_as(v@[1].1, t[1].1));
        assert(reg_key(v@[2].0) == t[2].0 && bound_as(v@[2].1, t[2].1));
        assert(reg_key(v@[3].0) == t[3].0 && bound_as(v@[3].1, t[3].1));
        assert(reg_key(v@[4].0) == t[4].0 && bound_as(v@[4].1, t[4].1));
        assert(reg_key(v@[5].0) == t[5].0 && bound_as(v@[5].1, t[5].1));
        assert(reg_key(v@[6].0) == t[6].0 && bound_as(v@[6].1, t[6].1));
    }
    v
}

/// The entries of the Emacs-like key map.
pub open spec fn emacs_table() -> Seq<((Seq<KeyInput>, EditorMode), Bound)> {
    emacs_0_table() + emacs_1_table() + emacs_2_table() + emacs_3_table()
}

/// The bindings of the Emacs-like key map.
pub fn emacs_keybindings() -> (v: Vec<(KeyEventRegister, Action)>)
    ensures
        matches_table(v@, emacs_table()),
        emacs_keys_bound(to_map(v@)),
{
    let mut v = emacs_0();
    let ghost mut t = emacs_0_table();
    let mut part = emacs_1();
    proof {
        lemma_matches_concat(v@, t, part@, emacs_1_table());
        t = t + emacs_1_table();
    }
    v.append(&mut part);
    let mut part = emacs_2();
    proof {
        lemma_matches_concat(v@, t, part@, emacs_2_table());
        t = t + emacs_2_table();
    }
    v.append(&mut part);
    let mut part = emacs_3();
    proof {
        lemma_matches_concat(v@, t, part@, emacs_3_table());
        t = t + emacs_3_table();
    }
    v.append(&mut part);
    proof {
        assert(t =~= emacs_table());
        lemma_emacs_keys(v@);
    }
    v
}

} // verus!
