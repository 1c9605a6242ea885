//! Editor actions: motions, edits, selections, clipboard and search, and
//! the [`Action`] type that holds any of them.
pub mod motion;
pub mod delete;
pub mod switch;
pub mod insert;
pub mod select;
pub mod change;
pub mod cpaste;
pub mod search;
pub mod system_editor;
pub mod history;

use vstd::prelude::*;
use crate::mode::EditorMode;
use crate::state::EditorState;
use self::switch::switch_mode_spec;
pub use self::motion::{MoveBackward, MoveDown, MoveForward, MoveHalfPageDown, MoveHalfPageUp, MovePageDown, MovePageUp, MoveParagraphBackward, MoveParagraphForward, MoveToEndOfLine, MoveToFirst, MoveToFirstRow, MoveToLastRow, MoveToMatchinBracket, MoveToStartOfLine, MoveUp, MoveWordBackward, MoveWordForward, MoveWordForwardToEndOfWord};
pub use self::delete::{DeleteBigWordEnd, DeleteBigWordForward, DeleteChar, DeleteCharForward, DeleteFindForward, DeleteLine, DeleteSelection, DeleteTillForward, DeleteToEndOfLine, DeleteToFirstCharOfLine, DeleteWordBackward, DeleteWordEnd, DeleteWordForward, JoinLineWithLineBelow, RemoveChar, ReplaceChar};
pub use self::switch::{SwitchMode};
pub use self::insert::{AppendNewline, InsertChar, InsertNewline, LineBreak};
pub use self::select::{DeleteInnerBetween, DeleteInnerBigWord, DeleteInnerWord, SelectInnerBetween, SelectInnerBigWord, SelectInnerWord, SelectLine};
pub use self::change::{ChangeBigWord, ChangeFindForward, ChangeInnerBetween, ChangeInnerBigWord, ChangeInnerWord, ChangeSelection, ChangeTillForward, ChangeWord};
pub use self::cpaste::{CopyLine, CopySelection, Paste, PasteBefore, PasteOverSelection};
pub use self::search::{AppendToSearch, ClearSearch, DeleteFromSearch, FindFirst, FindNext, FindPrevious, SelectCurrentSearch, StartSearch, StopSearch};
pub use self::system_editor::{OpenSystemEditor};
pub use self::history::{Redo, Undo};
pub use self::insert::PushLine;

verus! {

/// An action that can be executed on an editor state.
#[derive(Debug)]
pub enum Action {
    SwitchMode(SwitchMode),
    MoveForward(MoveForward),
    MoveBackward(MoveBackward),
    MoveUp(MoveUp),
    MoveDown(MoveDown),
    MoveWordForward(MoveWordForward),
    MoveWordForwardToEndOfWord(MoveWordForwardToEndOfWord),
    MoveWordBackward(MoveWordBackward),
    MoveToStartOfLine(MoveToStartOfLine),
    MoveToFirst(MoveToFirst),
    MoveToEndOfLine(MoveToEndOfLine),
    MoveToFirstRow(MoveToFirstRow),
    MoveToLastRow(MoveToLastRow),
    MoveToMatchingBracket(MoveToMatchinBracket),
    MoveHalfPageDown(MoveHalfPageDown),
    MoveHalfPageUp(MoveHalfPageUp),
    MovePageDown(MovePageDown),
    MovePageUp(MovePageUp),
    MoveParagraphForward(MoveParagraphForward),
    MoveParagraphBackward(MoveParagraphBackward),
    InsertChar(InsertChar),
    LineBreak(LineBreak),
    AppendNewline(AppendNewline),
    InsertNewline(InsertNewline),
    ReplaceChar(ReplaceChar),
    RemoveChar(RemoveChar),
    DeleteChar(DeleteChar),
    DeleteCharForward(DeleteCharForward),
    DeleteLine(DeleteLine),
    DeleteToFirstCharOfLine(DeleteToFirstCharOfLine),
    DeleteToEndOfLine(DeleteToEndOfLine),
    DeleteWordForward(DeleteWordForward),
    DeleteBigWordForward(DeleteBigWordForward),
    DeleteFindForward(DeleteFindForward),
    DeleteTillForward(DeleteTillForward),
    DeleteWordEnd(DeleteWordEnd),
    DeleteBigWordEnd(DeleteBigWordEnd),
    ChangeWord(ChangeWord),
    ChangeBigWord(ChangeBigWord),
    ChangeFindForward(ChangeFindForward),
    ChangeTillForward(ChangeTillForward),
    DeleteWordBackward(DeleteWordBackward),
    DeleteSelection(DeleteSelection),
    JoinLineWithLineBelow(JoinLineWithLineBelow),
    SelectInnerBetween(SelectInnerBetween),
    SelectInnerWord(SelectInnerWord),
    ChangeInnerBetween(ChangeInnerBetween),
    DeleteInnerBetween(DeleteInnerBetween),
    ChangeInnerWord(ChangeInnerWord),
    DeleteInnerWord(DeleteInnerWord),
    SelectInnerBigWord(SelectInnerBigWord),
    ChangeInnerBigWord(ChangeInnerBigWord),
    DeleteInnerBigWord(DeleteInnerBigWord),
    ChangeSelection(ChangeSelection),
    SelectLine(SelectLine),
    Undo(Undo),
    Redo(Redo),
    RepeatLastChange(RepeatLastChange),
    Paste(Paste),
    PasteBefore(PasteBefore),
    PasteOverSelection(PasteOverSelection),
    CopySelection(CopySelection),
    CopyLine(CopyLine),
    Composed(Composed),
    StartSearch(StartSearch),
    StopSearch(StopSearch),
    FindFirst(FindFirst),
    FindNext(FindNext),
    FindPrevious(FindPrevious),
    SelectCurrentSearch(SelectCurrentSearch),
    AppendToSearch(AppendToSearch),
    DeleteFromSearch(DeleteFromSearch),
    ClearSearch(ClearSearch),
    OpenSystemEditor(OpenSystemEditor),
}

/// The text typed after the last change is replayed: each character is
/// inserted, then normal mode is entered. Without such text nothing happens.
pub open spec fn typed_replay(mid: EditorState, fin: EditorState, typed: Option<Vec<char>>) -> bool {
    match typed {
        None => fin == mid,
        Some(t) => exists|tr: Seq<EditorState>| {
            &&& tr.len() == t@.len() + 1
            &&& tr[0] == mid
            &&& forall|i: int| 0 <= i < t@.len() ==> #[trigger] InsertChar(t@[i]).effect(tr[i], tr[i + 1])
            &&& switch_mode_spec(tr.last(), fin, EditorMode::Normal)
        },
    }
}

/// What executing an action does to a state. With `repeat` unset, the
/// dot command does nothing (it never replays itself).
pub open spec fn action_effect(a: Action, old: EditorState, new: EditorState, repeat: bool) -> bool
    decreases (if repeat { 1int } else { 0int }), a,
{
    match a {
        Action::SwitchMode(x) => x.effect(old, new),
        Action::MoveForward(x) => x.effect(old, new),
        Action::MoveBackward(x) => x.effect(old, new),
        Action::MoveUp(x) => x.effect(old, new),
        Action::MoveDown(x) => x.effect(old, new),
        Action::MoveWordForward(x) => x.effect(old, new),
        Action::MoveWordForwardToEndOfWord(x) => x.effect(old, new),
        Action::MoveWordBackward(x) => x.effect(old, new),
        Action::MoveToStartOfLine(x) => x.effect(old, new),
        Action::MoveToFirst(x) => x.effect(old, new),
        Action::MoveToEndOfLine(x) => x.effect(old, new),
        Action::MoveToFirstRow(x) => x.effect(old, new),
        Action::MoveToLastRow(x) => x.effect(old, new),
        Action::MoveToMatchingBracket(x) => x.effect(old, new),
        Action::MoveHalfPageDown(x) => x.effect(old, new),
        Action::MoveHalfPageUp(x) => x.effect(old, new),
        Action::MovePageDown(x) => x.effect(old, new),
        Action::MovePageUp(x) => x.effect(old, new),
        Action::MoveParagraphForward(x) => x.effect(old, new),
        Action::MoveParagraphBackward(x) => x.effect(old, new),
        Action::InsertChar(x) => x.effect(old, new),
        Action::LineBreak(x) => x.effect(old, new),
        Action::AppendNewline(x) => x.effect(old, new),
        Action::InsertNewline(x) => x.effect(old, new),
        Action::ReplaceChar(x) => x.effect(old, new),
        Action::RemoveChar(x) => x.effect(old, new),
        Action::DeleteChar(x) => x.effect(old, new),
        Action::DeleteCharForward(x) => x.effect(old, new),
        Action::DeleteLine(x) => x.effect(old, new),
        Action::DeleteToFirstCharOfLine(x) => x.effect(old, new),
        Action::DeleteToEndOfLine(x) => x.effect(old, new),
        Action::DeleteWordForward(x) => x.effect(old, new),
        Action::DeleteBigWordForward(x) => x.effect(old, new),
        Action::DeleteFindForward(x) => x.effect(old, new),
        Action::DeleteTillForward(x) => x.effect(old, new),
        Action::DeleteWordEnd(x) => x.effect(old, new),
        Action::DeleteBigWordEnd(x) => x.effect(old, new),
        Action::ChangeWord(x) => x.effect(old, new),
        Action::ChangeBigWord(x) => x.effect(old, new),
        Action::ChangeFindForward(x) => x.effect(old, new),
        Action::ChangeTillForward(x) => x.effect(old, new),
        Action::DeleteWordBackward(x) => x.effect(old, new),
        Action::DeleteSelection(x) => x.effect(old, new),
        Action::JoinLineWithLineBelow(x) => x.effect(old, new),
        Action::SelectInnerBetween(x) => x.effect(old, new),
        Action::SelectInnerWord(x) => x.effect(old, new),
        Action::ChangeInnerBetween(x) => x.effect(old, new),
        Action::DeleteInnerBetween(x) => x.effect(old, new),
        Action::ChangeInnerWord(x) => x.effect(old, new),
        Action::DeleteInnerWord(x) => x.effect(old, new),
        Action::SelectInnerBigWord(x) => x.effect(old, new),
        Action::ChangeInnerBigWord(x) => x.effect(old, new),
        Action::DeleteInnerBigWord(x) => x.effect(old, new),
        Action::ChangeSelection(x) => x.effect(old, new),
        Action::SelectLine(x) => x.effect(old, new),
        Action::Undo(x) => x.effect(old, new),
        Action::Redo(x) => x.effect(old, new),
        Action::RepeatLastChange(_) => if !repeat {
            new == old
        } else {
            match old.last_change {
                None => new == old,
                Some(last) => exists|mid: EditorState, fin: EditorState| {
                    &&& action_effect(
                        last,
                        EditorState { last_change: None, last_insert: None, ..old },
                        mid,
                        false,
                    )
                    &&& #[trigger] typed_replay(mid, fin, old.last_insert)
                    &&& new == (EditorState { last_change: old.last_change, last_insert: old.last_insert, ..fin })
                },
            }
        },
        Action::Paste(x) => x.effect(old, new),
        Action::PasteBefore(x) => x.effect(old, new),
        Action::PasteOverSelection(x) => x.effect(old, new),
        Action::CopySelection(x) => x.effect(old, new),
        Action::CopyLine(x) => x.effect(old, new),
        Action::Composed(c) => seq_effect(c.0@, old, new, repeat),
        Action::StartSearch(x) => x.effect(old, new),
        Action::StopSearch(x) => x.effect(old, new),
        Action::FindFirst(x) => x.effect(old, new),
        Action::FindNext(x) => x.effect(old, new),
        Action::FindPrevious(x) => x.effect(old, new),
        Action::SelectCurrentSearch(x) => x.effect(old, new),
        Action::AppendToSearch(x) => x.effect(old, new),
        Action::DeleteFromSearch(x) => x.effect(old, new),
        Action::ClearSearch(x) => x.effect(old, new),
        Action::OpenSystemEditor(x) => x.effect(old, new),
    }
}

/// Whether the dot command repeats an action: changes and the start of an
/// insert session are repeated; a composed action if any of its parts is.
pub open spec fn action_repeatable(a: Action) -> bool
    decreases a,
{
    match a {
        Action::SwitchMode(x) => x.0 == EditorMode::Insert,
        Action::ReplaceChar(_) => true,
        Action::RemoveChar(_) => true,
        Action::DeleteChar(_) => true,
        Action::DeleteCharForward(_) => true,
        Action::DeleteLine(_) => true,
        Action::DeleteToFirstCharOfLine(_) => true,
        Action::DeleteToEndOfLine(_) => true,
        Action::DeleteWordForward(_) => true,
        Action::DeleteBigWordForward(_) => true,
        Action::DeleteFindForward(_) => true,
        Action::DeleteTillForward(_) => true,
        Action::ChangeWord(_) => true,
        Action::ChangeBigWord(_) => true,
        Action::ChangeFindForward(_) => true,
        Action::ChangeTillForward(_) => true,
        Action::DeleteWordBackward(_) => true,
        Action::DeleteSelection(_) => true,
        Action::JoinLineWithLineBelow(_) => true,
        Action::ChangeInnerBetween(_) => true,
        Action::ChangeInnerWord(_) => true,
        Action::ChangeInnerBigWord(_) => true,
        Action::ChangeSelection(_) => true,
        Action::Paste(_) => true,
        Action::PasteBefore(_) => true,
        Action::PasteOverSelection(_) => true,
        Action::Composed(c) => any_repeatable(c.0@),
        _ => false,
    }
}

/// Two actions do the same: equal, or composed of actions that pairwise do
/// the same.
pub open spec fn same_action(a: Action, b: Action) -> bool
    decreases a,
{
    match (a, b) {
        (Action::Composed(x), Action::Composed(y)) => same_actions(x.0@, y.0@),
        _ => a == b,
    }
}

/// Two sequences of actions that pairwise do the same.
pub open spec fn same_actions(xs: Seq<Action>, ys: Seq<Action>) -> bool
    decreases xs,
{
    &&& xs.len() == ys.len()
    &&& xs.len() > 0 ==> same_actions(xs.drop_last(), ys.drop_last()) && same_action(xs.last(), ys.last())
}

/// A state the execution passes through.
pub open spec fn passes(s: EditorState) -> bool {
    true
}

/// What executing actions one after the other does to a state.
pub open spec fn seq_effect(xs: Seq<Action>, old: EditorState, new: EditorState, repeat: bool) -> bool
    decreases (if repeat { 1int } else { 0int }), xs,
{
    if xs.len() == 0 {
        new == old
    } else {
        exists|mid: EditorState| {
            &&& #[trigger] passes(mid)
            &&& seq_effect(xs.drop_last(), old, mid, repeat)
            &&& action_effect(xs.last(), mid, new, repeat)
        }
    }
}

/// Whether any of the actions is repeated by the dot command.
pub open spec fn any_repeatable(xs: Seq<Action>) -> bool
    decreases xs,
{
    xs.len() > 0 && (action_repeatable(xs.last()) || any_repeatable(xs.drop_last()))
}

impl Action {
    /// Executes the action; with `repeat` unset the dot command does
    /// nothing.
    pub fn run(&self, state: &mut EditorState, repeat: bool)
        ensures
            action_effect(*self, *old(state), *final(state), repeat),
        decreases (if repeat { 1int } else { 0int }), *self,
    {
        match self {
            Action::SwitchMode(x) => x.execute(state),
            Action::MoveForward(x) => x.execute(state),
            Action::MoveBackward(x) => x.execute(state),
            Action::MoveUp(x) => x.execute(state),
            Action::MoveDown(x) => x.execute(state),
            Action::MoveWordForward(x) => x.execute(state),
            Action::MoveWordForwardToEndOfWord(x) => x.execute(state),
            Action::MoveWordBackward(x) => x.execute(state),
            Action::MoveToStartOfLine(x) => x.execute(state),
            Action::MoveToFirst(x) => x.execute(state),
            Action::MoveToEndOfLine(x) => x.execute(state),
            Action::MoveToFirstRow(x) => x.execute(state),
            Action::MoveToLastRow(x) => x.execute(state),
            Action::MoveToMatchingBracket(x) => x.execute(state),
            Action::MoveHalfPageDown(x) => x.execute(state),
            Action::MoveHalfPageUp(x) => x.execute(state),
            Action::MovePageDown(x) => x.execute(state),
            Action::MovePageUp(x) => x.execute(state),
            Action::MoveParagraphForward(x) => x.execute(state),
            Action::MoveParagraphBackward(x) => x.execute(state),
            Action::InsertChar(x) => x.execute(state),
            Action::LineBreak(x) => x.execute(state),
            Action::AppendNewline(x) => x.execute(state),
            Action::InsertNewline(x) => x.execute(state),
            Action::ReplaceChar(x) => x.execute(state),
            Action::RemoveChar(x) => x.execute(state),
            Action::DeleteChar(x) => x.execute(state),
            Action::DeleteCharForward(x) => x.execute(state),
            Action::DeleteLine(x) => x.execute(state),
            Action::DeleteToFirstCharOfLine(x) => x.execute(state),
            Action::DeleteToEndOfLine(x) => x.execute(state),
            Action::DeleteWordForward(x) => x.execute(state),
            Action::DeleteBigWordForward(x) => x.execute(state),
            Action::DeleteFindForward(x) => x.execute(state),
            Action::DeleteTillForward(x) => x.execute(state),
            Action::DeleteWordEnd(x) => x.execute(state),
            Action::DeleteBigWordEnd(x) => x.execute(state),
            Action::ChangeWord(x) => x.execute(state),
            Action::ChangeBigWord(x) => x.execute(state),
            Action::ChangeFindForward(x) => x.execute(state),
            Action::ChangeTillForward(x) => x.execute(state),
            Action::DeleteWordBackward(x) => x.execute(state),
            Action::DeleteSelection(x) => x.execute(state),
            Action::JoinLineWithLineBelow(x) => x.execute(state),
            Action::SelectInnerBetween(x) => x.execute(state),
            Action::SelectInnerWord(x) => x.execute(state),
            Action::ChangeInnerBetween(x) => x.execute(state),
            Action::DeleteInnerBetween(x) => x.execute(state),
            Action::ChangeInnerWord(x) => x.execute(state),
            Action::DeleteInnerWord(x) => x.execute(state),
            Action::SelectInnerBigWord(x) => x.execute(state),
            Action::ChangeInnerBigWord(x) => x.execute(state),
            Action::DeleteInnerBigWord(x) => x.execute(state),
            Action::ChangeSelection(x) => x.execute(state),
            Action::SelectLine(x) => x.execute(state),
            Action::Undo(x) => x.execute(state),
            Action::Redo(x) => x.execute(state),
            Action::RepeatLastChange(_) => {
                if !repeat {
                    return;
                }
                let last = state.last_change.take();
                let typed = state.last_insert.take();
                let last = match last {
                    Some(a) => a,
                    None => {
                        state.last_insert = typed;
                        return;
                    },
                };
                let ghost s0 = *state;
                last.run(state, false);
                let ghost mid = *state;
                match &typed {
                    None => {},
                    Some(t) => {
                        let ghost mut tr: Seq<EditorState> = seq![*state];
                        let mut i: usize = 0;
                        while i < t.len()
                            invariant
                                i <= t@.len(),
                                tr.len() == i + 1,
                                tr[0] == mid,
                                tr.last() == *state,
                                forall|j: int| 0 <= j < i ==> #[trigger] InsertChar(t@[j]).effect(tr[j], tr[j + 1]),
                            decreases t@.len() - i,
                        {
                            let ghost before = *state;
                            InsertChar(t[i]).execute(state);
                            proof {
                                tr = tr.push(*state);
                                assert(tr[i as int] == before);
                            }
                            i = i + 1;
                        }
                        SwitchMode(EditorMode::Normal).execute(state);
                        assert(switch_mode_spec(tr.last(), *state, EditorMode::Normal));
                    },
                }
                let ghost fin = *state;
                state.last_change = Some(last);
                state.last_insert = typed;
                assert(typed_replay(mid, fin, typed));
                assert(action_effect(last, s0, mid, false));
            },
            Action::Paste(x) => x.execute(state),
            Action::PasteBefore(x) => x.execute(state),
            Action::PasteOverSelection(x) => x.execute(state),
            Action::CopySelection(x) => x.execute(state),
            Action::CopyLine(x) => x.execute(state),
            Action::Composed(c) => {
                let ghost old_state = *state;
                let mut i: usize = 0;
                assert(c.0@.take(0) =~= Seq::<Action>::empty());
                while i < c.0.len()
                    invariant
                        *self == Action::Composed(*c),
                        i <= c.0@.len(),
                        seq_effect(c.0@.take(i as int), old_state, *state, repeat),
                    decreases c.0@.len() - i,
                {
                    proof {
                        broadcast use vstd::std_specs::vec::axiom_vec_index_decreases;
                        assert(decreases_to!(*self => self->Composed_0));
                        assert(decreases_to!(c.0 => c.0[i as int]));
                    }
                    let ghost before = *state;
                    c.0[i].run(state, repeat);
                    proof {
                        assert(c.0@.take(i + 1).drop_last() =~= c.0@.take(i as int));
                        assert(passes(before));
                    }
                    i = i + 1;
                }
                assert(c.0@.take(i as int) =~= c.0@);
            },
            Action::StartSearch(x) => x.execute(state),
            Action::StopSearch(x) => x.execute(state),
            Action::FindFirst(x) => x.execute(state),
            Action::FindNext(x) => x.execute(state),
            Action::FindPrevious(x) => x.execute(state),
            Action::SelectCurrentSearch(x) => x.execute(state),
            Action::AppendToSearch(x) => x.execute(state),
            Action::DeleteFromSearch(x) => x.execute(state),
            Action::ClearSearch(x) => x.execute(state),
            Action::OpenSystemEditor(x) => x.execute(state),
        }
    }

    /// Whether the dot command repeats the action.
    pub fn is_repeatable(&self) -> (b: bool)
        ensures
            b == action_repeatable(*self),
        decreases *self,
    {
        match self {
            Action::SwitchMode(x) => x.0 == EditorMode::Insert,
            Action::ReplaceChar(_) => true,
            Action::RemoveChar(_) => true,
            Action::DeleteChar(_) => true,
            Action::DeleteCharForward(_) => true,
            Action::DeleteLine(_) => true,
            Action::DeleteToFirstCharOfLine(_) => true,
            Action::DeleteToEndOfLine(_) => true,
            Action::DeleteWordForward(_) => true,
            Action::DeleteBigWordForward(_) => true,
            Action::DeleteFindForward(_) => true,
            Action::DeleteTillForward(_) => true,
            Action::ChangeWord(_) => true,
            Action::ChangeBigWord(_) => true,
            Action::ChangeFindForward(_) => true,
            Action::ChangeTillForward(_) => true,
            Action::DeleteWordBackward(_) => true,
            Action::DeleteSelection(_) => true,
            Action::JoinLineWithLineBelow(_) => true,
            Action::ChangeInnerBetween(_) => true,
            Action::ChangeInnerWord(_) => true,
            Action::ChangeInnerBigWord(_) => true,
            Action::ChangeSelection(_) => true,
            Action::Paste(_) => true,
            Action::PasteBefore(_) => true,
            Action::PasteOverSelection(_) => true,
            Action::Composed(c) => {
                let mut k: usize = c.0.len();
                assert(c.0@.take(k as int) =~= c.0@);
                while k > 0
                    invariant
                        *self == Action::Composed(*c),
                        k <= c.0@.len(),
                        any_repeatable(c.0@) == any_repeatable(c.0@.take(k as int)),
                    decreases k,
                {
                    proof {
                        broadcast use vstd::std_specs::vec::axiom_vec_index_decreases;
                        assert(decreases_to!(*self => self->Composed_0));
                        assert(decreases_to!(c.0 => c.0[k - 1]));
                        assert(c.0@.take(k as int).drop_last() =~= c.0@.take(k - 1));
                    }
                    if c.0[k - 1].is_repeatable() {
                        return true;
                    }
                    k = k - 1;
                }
                false
            },
            _ => false,
        }
    }

    /// A copy of the action.
    pub fn duplicate(&self) -> (b: Action)
        ensures
            same_action(*self, b),
        decreases *self,
    {
        match self {
            Action::SwitchMode(x) => Action::SwitchMode(*x),
            Action::MoveForward(x) => Action::MoveForward(*x),
            Action::MoveBackward(x) => Action::MoveBackward(*x),
            Action::MoveUp(x) => Action::MoveUp(*x),
            Action::MoveDown(x) => Action::MoveDown(*x),
            Action::MoveWordForward(x) => Action::MoveWordForward(*x),
            Action::MoveWordForwardToEndOfWord(x) => Action::MoveWordForwardToEndOfWord(*x),
            Action::MoveWordBackward(x) => Action::MoveWordBackward(*x),
            Action::MoveToStartOfLine(x) => Action::MoveToStartOfLine(*x),
            Action::MoveToFirst(x) => Action::MoveToFirst(*x),
            Action::MoveToEndOfLine(x) => Action::MoveToEndOfLine(*x),
            Action::MoveToFirstRow(x) => Action::MoveToFirstRow(*x),
            Action::MoveToLastRow(x) => Action::MoveToLastRow(*x),
            Action::MoveToMatchingBracket(x) => Action::MoveToMatchingBracket(*x),
            Action::MoveHalfPageDown(x) => Action::MoveHalfPageDown(*x),
            Action::MoveHalfPageUp(x) => Action::MoveHalfPageUp(*x),
            Action::MovePageDown(x) => Action::MovePageDown(*x),
            Action::MovePageUp(x) => Action::MovePageUp(*x),
            Action::MoveParagraphForward(x) => Action::MoveParagraphForward(*x),
            Action::MoveParagraphBackward(x) => Action::MoveParagraphBackward(*x),
            Action::InsertChar(x) => Action::InsertChar(*x),
            Action::LineBreak(x) => Action::LineBreak(*x),
            Action::AppendNewline(x) => Action::AppendNewline(*x),
            Action::InsertNewline(x) => Action::InsertNewline(*x),
            Action::ReplaceChar(x) => Action::ReplaceChar(*x),
            Action::RemoveChar(x) => Action::RemoveChar(*x),
            Action::DeleteChar(x) => Action::DeleteChar(*x),
            Action::DeleteCharForward(x) => Action::DeleteCharForward(*x),
            Action::DeleteLine(x) => Action::DeleteLine(*x),
            Action::DeleteToFirstCharOfLine(x) => Action::DeleteToFirstCharOfLine(*x),
            Action::DeleteToEndOfLine(x) => Action::DeleteToEndOfLine(*x),
            Action::DeleteWordForward(x) => Action::DeleteWordForward(*x),
            Action::DeleteBigWordForward(x) => Action::DeleteBigWordForward(*x),
            Action::DeleteFindForward(x) => Action::DeleteFindForward(*x),
            Action::DeleteTillForward(x) => Action::DeleteTillForward(*x),
            Action::DeleteWordEnd(x) => Action::DeleteWordEnd(*x),
            Action::DeleteBigWordEnd(x) => Action::DeleteBigWordEnd(*x),
            Action::ChangeWord(x) => Action::ChangeWord(*x),
            Action::ChangeBigWord(x) => Action::ChangeBigWord(*x),
            Action::ChangeFindForward(x) => Action::ChangeFindForward(*x),
            Action::ChangeTillForward(x) => Action::ChangeTillForward(*x),
            Action::DeleteWordBackward(x) => Action::DeleteWordBackward(*x),
            Action::DeleteSelection(x) => Action::DeleteSelection(*x),
            Action::JoinLineWithLineBelow(x) => Action::JoinLineWithLineBelow(*x),
            Action::SelectInnerBetween(x) => Action::SelectInnerBetween(*x),
            Action::SelectInnerWord(x) => Action::SelectInnerWord(*x),
            Action::ChangeInnerBetween(x) => Action::ChangeInnerBetween(*x),
            Action::DeleteInnerBetween(x) => Action::DeleteInnerBetween(*x),
            Action::ChangeInnerWord(x) => Action::ChangeInnerWord(*x),
            Action::DeleteInnerWord(x) => Action::DeleteInnerWord(*x),
            Action::SelectInnerBigWord(x) => Action::SelectInnerBigWord(*x),
            Action::ChangeInnerBigWord(x) => Action::ChangeInnerBigWord(*x),
            Action::DeleteInnerBigWord(x) => Action::DeleteInnerBigWord(*x),
            Action::ChangeSelection(x) => Action::ChangeSelection(*x),
            Action::SelectLine(x) => Action::SelectLine(*x),
            Action::Undo(x) => Action::Undo(*x),
            Action::Redo(x) => Action::Redo(*x),
            Action::RepeatLastChange(x) => Action::RepeatLastChange(*x),
            Action::Paste(x) => Action::Paste(*x),
            Action::PasteBefore(x) => Action::PasteBefore(*x),
            Action::PasteOverSelection(x) => Action::PasteOverSelection(*x),
            Action::CopySelection(x) => Action::CopySelection(*x),
            Action::CopyLine(x) => Action::CopyLine(*x),
            Action::Composed(c) => {
                let mut copies: Vec<Action> = Vec::new();
                let mut i: usize = 0;
                assert(c.0@.take(0) =~= Seq::<Action>::empty());
                while i < c.0.len()
                    invariant
                        *self == Action::Composed(*c),
                        i <= c.0@.len(),
                        same_actions(c.0@.take(i as int), copies@),
                    decreases c.0@.len() - i,
                {
                    proof {
                        broadcast use vstd::std_specs::vec::axiom_vec_index_decreases;
                        assert(decreases_to!(*self => self->Composed_0));
                        assert(decreases_to!(c.0 => c.0[i as int]));
                    }
                    let copy = c.0[i].duplicate();
                    let ghost prev = copies@;
                    copies.push(copy);
                    proof {
                        assert(c.0@.take(i + 1).drop_last() =~= c.0@.take(i as int));
                        assert(copies@.drop_last() =~= prev);
                    }
                    i = i + 1;
                }
                assert(c.0@.take(i as int) =~= c.0@);
                Action::Composed(Composed(copies))
            },
            Action::StartSearch(x) => Action::StartSearch(*x),
            Action::StopSearch(x) => Action::StopSearch(*x),
            Action::FindFirst(x) => Action::FindFirst(*x),
            Action::FindNext(x) => Action::FindNext(*x),
            Action::FindPrevious(x) => Action::FindPrevious(*x),
            Action::SelectCurrentSearch(x) => Action::SelectCurrentSearch(*x),
            Action::AppendToSearch(x) => Action::AppendToSearch(*x),
            Action::DeleteFromSearch(x) => Action::DeleteFromSearch(*x),
            Action::ClearSearch(x) => Action::ClearSearch(*x),
            Action::OpenSystemEditor(x) => Action::OpenSystemEditor(*x),
        }
    }
}

impl Clone for Action {
    /// A copy that does the same.
    fn clone(&self) -> (b: Self)
        ensures
            same_action(*self, b),
    {
        self.duplicate()
    }
}

/// Actions that can be executed on an editor state.
pub trait Execute {
    /// The relation between the state before and after executing.
    spec fn executes(&self, old: EditorState, new: EditorState) -> bool;

    /// Whether the dot command repeats the action.
    spec fn repeats(&self) -> bool;

    /// Executes the action.
    fn execute(&mut self, state: &mut EditorState)
        ensures
            old(self).executes(*old(state), *final(state)),
    ;

    /// Whether the dot command repeats the action.
    fn is_repeatable(&self) -> (b: bool)
        ensures
            b == self.repeats(),
    ;
}

impl Execute for Action {
    open spec fn executes(&self, old: EditorState, new: EditorState) -> bool {
        action_effect(*self, old, new, true)
    }

    open spec fn repeats(&self) -> bool {
        action_repeatable(*self)
    }

    fn execute(&mut self, state: &mut EditorState) {
        self.run(state, true);
    }

    fn is_repeatable(&self) -> (b: bool) {
        Action::is_repeatable(self)
    }
}

impl Execute for SwitchMode {
    open spec fn executes(&self, old: EditorState, new: EditorState) -> bool {
        self.effect(old, new)
    }

    open spec fn repeats(&self) -> bool {
        self.0 == EditorMode::Insert
    }

    fn execute(&mut self, state: &mut EditorState) {
        SwitchMode::execute(self, state);
    }

    fn is_repeatable(&self) -> (b: bool) {
        SwitchMode::is_repeatable(self)
    }
}

impl Execute for MoveForward {
    open spec fn executes(&self, old: EditorState, new: EditorState) -> bool {
        self.effect(old, new)
    }

    open spec fn repeats(&self) -> bool {
        false
    }

    fn execute(&mut self, state: &mut EditorState) {
        MoveForward::execute(self, state);
    }

    fn is_repeatable(&self) -> (b: bool) {
        false
    }
}

impl Execute for MoveBackward {
    open spec fn executes(&self, old: EditorState, new: EditorState) -> bool {
        self.effect(old, new)
    }

    open spec fn repeats(&self) -> bool {
        false
    }

    fn execute(&mut self, state: &mut EditorState) {
        MoveBackward::execute(self, state);
    }

    fn is_repeatable(&self) -> (b: bool) {
        false
    }
}

impl Execute for MoveUp {
    open spec fn executes(&self, old: EditorState, new: EditorState) -> bool {
        self.effect(old, new)
    }

    open spec fn repeats(&self) -> bool {
        false
    }

    fn execute(&mut self, state: &mut EditorState) {
        MoveUp::execute(self, state);
    }

    fn is_repeatable(&self) -> (b: bool) {
        false
    }
}

impl Execute for MoveDown {
    open spec fn executes(&self, old: EditorState, new: EditorState) -> bool {
        self.effect(old, new)
    }

    open spec fn repeats(&self) -> bool {
        false
    }

    fn execute(&mut self, state: &mut EditorState) {
        MoveDown::execute(self, state);
    }

    fn is_repeatable(&self) -> (b: bool) {
        false
    }
}

impl Execute for MoveWordForward {
    open spec fn executes(&self, old: EditorState, new: EditorState) -> bool {
        self.effect(old, new)
    }

    open spec fn repeats(&self) -> bool {
        false
    }

    fn execute(&mut self, state: &mut EditorState) {
        MoveWordForward::execute(self, state);
    }

    fn is_repeatable(&self) -> (b: bool) {
        false
    }
}

impl Execute for MoveWordForwardToEndOfWord {
    open spec fn executes(&self, old: EditorState, new: EditorState) -> bool {
        self.effect(old, new)
    }

    open spec fn repeats(&self) -> bool {
        false
    }

    fn execute(&mut self, state: &mut EditorState) {
        MoveWordForwardToEndOfWord::execute(self, state);
    }

    fn is_repeatable(&self) -> (b: bool) {
        false
    }
}

impl Execute for MoveWordBackward {
    open spec fn executes(&self, old: EditorState, new: EditorState) -> bool {
        self.effect(old, new)
    }

    open spec fn repeats(&self) -> bool {
        false
    }

    fn execute(&mut self, state: &mut EditorState) {
        MoveWordBackward::execute(self, state);
    }

    fn is_repeatable(&self) -> (b: bool) {
        false
    }
}

impl Execute for MoveToStartOfLine {
    open spec fn executes(&self, old: EditorState, new: EditorState) -> bool {
        self.effect(old, new)
    }

    open spec fn repeats(&self) -> bool {
        false
    }

    fn execute(&mut self, state: &mut EditorState) {
        MoveToStartOfLine::execute(self, state);
    }

    fn is_repeatable(&self) -> (b: bool) {
        false
    }
}

impl Execute for MoveToFirst {
    open spec fn executes(&self, old: EditorState, new: EditorState) -> bool {
        self.effect(old, new)
    }

    open spec fn repeats(&self) -> bool {
        false
    }

    fn execute(&mut self, state: &mut EditorState) {
        MoveToFirst::execute(self, state);
    }

    fn is_repeatable(&self) -> (b: bool) {
        false
    }
}

impl Execute for MoveToEndOfLine {
    open spec fn executes(&self, old: EditorState, new: EditorState) -> bool {
        self.effect(old, new)
    }

    open spec fn repeats(&self) -> bool {
        false
    }

    fn execute(&mut self, state: &mut EditorState) {
        MoveToEndOfLine::execute(self, state);
    }

    fn is_repeatable(&self) -> (b: bool) {
        false
    }
}

impl Execute for MoveToFirstRow {
    open spec fn executes(&self, old: EditorState, new: EditorState) -> bool {
        self.effect(old, new)
    }

    open spec fn repeats(&self) -> bool {
        false
    }

    fn execute(&mut self, state: &mut EditorState) {
        MoveToFirstRow::execute(self, state);
    }

    fn is_repeatable(&self) -> (b: bool) {
        false
    }
}

impl Execute for MoveToLastRow {
    open spec fn executes(&self, old: EditorState, new: EditorState) -> bool {
        self.effect(old, new)
    }

    open spec fn repeats(&self) -> bool {
        false
    }

    fn execute(&mut self, state: &mut EditorState) {
        MoveToLastRow::execute(self, state);
    }

    fn is_repeatable(&self) -> (b: bool) {
        false
    }
}

impl Execute for MoveToMatchinBracket {
    open spec fn executes(&self, old: EditorState, new: EditorState) -> bool {
        self.effect(old, new)
    }

    open spec fn repeats(&self) -> bool {
        false
    }

    fn execute(&mut self, state: &mut EditorState) {
        MoveToMatchinBracket::execute(self, state);
    }

    fn is_repeatable(&self) -> (b: bool) {
        false
    }
}

impl Execute for MoveHalfPageDown {
    open spec fn executes(&self, old: EditorState, new: EditorState) -> bool {
        self.effect(old, new)
    }

    open spec fn repeats(&self) -> bool {
        false
    }

    fn execute(&mut self, state: &mut EditorState) {
        MoveHalfPageDown::execute(self, state);
    }

    fn is_repeatable(&self) -> (b: bool) {
        false
    }
}

impl Execute for MoveHalfPageUp {
    open spec fn executes(&self, old: EditorState, new: EditorState) -> bool {
        self.effect(old, new)
    }

    open spec fn repeats(&self) -> bool {
        false
    }

    fn execute(&mut self, state: &mut EditorState) {
        MoveHalfPageUp::execute(self, state);
    }

    fn is_repeatable(&self) -> (b: bool) {
        false
    }
}

impl Execute for MovePageDown {
    open spec fn executes(&self, old: EditorState, new: EditorState) -> bool {
        self.effect(old, new)
    }

    open spec fn repeats(&self) -> bool {
        false
    }

    fn execute(&mut self, state: &mut EditorState) {
        MovePageDown::execute(self, state);
    }

    fn is_repeatable(&self) -> (b: bool) {
        false
    }
}

impl Execute for MovePageUp {
    open spec fn executes(&self, old: EditorState, new: EditorState) -> bool {
        self.effect(old, new)
    }

    open spec fn repeats(&self) -> bool {
        false
    }

    fn execute(&mut self, state: &mut EditorState) {
        MovePageUp::execute(self, state);
    }

    fn is_repeatable(&self) -> (b: bool) {
        false
    }
}

impl Execute for MoveParagraphForward {
    open spec fn executes(&self, old: EditorState, new: EditorState) -> bool {
        self.effect(old, new)
    }

    open spec fn repeats(&self) -> bool {
        false
    }

    fn execute(&mut self, state: &mut EditorState) {
        MoveParagraphForward::execute(self, state);
    }

    fn is_repeatable(&self) -> (b: bool) {
        false
    }
}

impl Execute for MoveParagraphBackward {
    open spec fn executes(&self, old: EditorState, new: EditorState) -> bool {
        self.effect(old, new)
    }

    open spec fn repeats(&self) -> bool {
        false
    }

    fn execute(&mut self, state: &mut EditorState) {
        MoveParagraphBackward::execute(self, state);
    }

    fn is_repeatable(&self) -> (b: bool) {
        false
    }
}

impl Execute for InsertChar {
    open spec fn executes(&self, old: EditorState, new: EditorState) -> bool {
        self.effect(old, new)
    }

    open spec fn repeats(&self) -> bool {
        false
    }

    fn execute(&mut self, state: &mut EditorState) {
        InsertChar::execute(self, state);
    }

    fn is_repeatable(&self) -> (b: bool) {
        false
    }
}

impl Execute for LineBreak {
    open spec fn executes(&self, old: EditorState, new: EditorState) -> bool {
        self.effect(old, new)
    }

    open spec fn repeats(&self) -> bool {
        false
    }

    fn execute(&mut self, state: &mut EditorState) {
        LineBreak::execute(self, state);
    }

    fn is_repeatable(&self) -> (b: bool) {
        false
    }
}

impl Execute for AppendNewline {
    open spec fn executes(&self, old: EditorState, new: EditorState) -> bool {
        self.effect(old, new)
    }

    open spec fn repeats(&self) -> bool {
        false
    }

    fn execute(&mut self, state: &mut EditorState) {
        AppendNewline::execute(self, state);
    }

    fn is_repeatable(&self) -> (b: bool) {
        AppendNewline::is_repeatable(self)
    }
}

impl Execute for InsertNewline {
    open spec fn executes(&self, old: EditorState, new: EditorState) -> bool {
        self.effect(old, new)
    }

    open spec fn repeats(&self) -> bool {
        false
    }

    fn execute(&mut self, state: &mut EditorState) {
        InsertNewline::execute(self, state);
    }

    fn is_repeatable(&self) -> (b: bool) {
        false
    }
}

impl Execute for ReplaceChar {
    open spec fn executes(&self, old: EditorState, new: EditorState) -> bool {
        self.effect(old, new)
    }

    open spec fn repeats(&self) -> bool {
        true
    }

    fn execute(&mut self, state: &mut EditorState) {
        ReplaceChar::execute(self, state);
    }

    fn is_repeatable(&self) -> (b: bool) {
        ReplaceChar::is_repeatable(self)
    }
}

impl Execute for RemoveChar {
    open spec fn executes(&self, old: EditorState, new: EditorState) -> bool {
        self.effect(old, new)
    }

    open spec fn repeats(&self) -> bool {
        true
    }

    fn execute(&mut self, state: &mut EditorState) {
        RemoveChar::execute(self, state);
    }

    fn is_repeatable(&self) -> (b: bool) {
        RemoveChar::is_repeatable(self)
    }
}

impl Execute for DeleteChar {
    open spec fn executes(&self, old: EditorState, new: EditorState) -> bool {
        self.effect(old, new)
    }

    open spec fn repeats(&self) -> bool {
        true
    }

    fn execute(&mut self, state: &mut EditorState) {
        DeleteChar::execute(self, state);
    }

    fn is_repeatable(&self) -> (b: bool) {
        DeleteChar::is_repeatable(self)
    }
}

impl Execute for DeleteCharForward {
    open spec fn executes(&self, old: EditorState, new: EditorState) -> bool {
        self.effect(old, new)
    }

    open spec fn repeats(&self) -> bool {
        true
    }

    fn execute(&mut self, state: &mut EditorState) {
        DeleteCharForward::execute(self, state);
    }

    fn is_repeatable(&self) -> (b: bool) {
        DeleteCharForward::is_repeatable(self)
    }
}

impl Execute for DeleteLine {
    open spec fn executes(&self, old: EditorState, new: EditorState) -> bool {
        self.effect(old, new)
    }

    open spec fn repeats(&self) -> bool {
        true
    }

    fn execute(&mut self, state: &mut EditorState) {
        DeleteLine::execute(self, state);
    }

    fn is_repeatable(&self) -> (b: bool) {
        DeleteLine::is_repeatable(self)
    }
}

impl Execute for DeleteToFirstCharOfLine {
    open spec fn executes(&self, old: EditorState, new: EditorState) -> bool {
        self.effect(old, new)
    }

    open spec fn repeats(&self) -> bool {
        true
    }

    fn execute(&mut self, state: &mut EditorState) {
        DeleteToFirstCharOfLine::execute(self, state);
    }

    fn is_repeatable(&self) -> (b: bool) {
        DeleteToFirstCharOfLine::is_repeatable(self)
    }
}

impl Execute for DeleteToEndOfLine {
    open spec fn executes(&self, old: EditorState, new: EditorState) -> bool {
        self.effect(old, new)
    }

    open spec fn repeats(&self) -> bool {
        true
    }

    fn execute(&mut self, state: &mut EditorState) {
        DeleteToEndOfLine::execute(self, state);
    }

    fn is_repeatable(&self) -> (b: bool) {
        DeleteToEndOfLine::is_repeatable(self)
    }
}

impl Execute for DeleteWordForward {
    open spec fn executes(&self, old: EditorState, new: EditorState) -> bool {
        self.effect(old, new)
    }

    open spec fn repeats(&self) -> bool {
        true
    }

    fn execute(&mut self, state: &mut EditorState) {
        DeleteWordForward::execute(self, state);
    }

    fn is_repeatable(&self) -> (b: bool) {
        DeleteWordForward::is_repeatable(self)
    }
}

impl Execute for DeleteBigWordForward {
    open spec fn executes(&self, old: EditorState, new: EditorState) -> bool {
        self.effect(old, new)
    }

    open spec fn repeats(&self) -> bool {
        true
    }

    fn execute(&mut self, state: &mut EditorState) {
        DeleteBigWordForward::execute(self, state);
    }

    fn is_repeatable(&self) -> (b: bool) {
        DeleteBigWordForward::is_repeatable(self)
    }
}

impl Execute for DeleteFindForward {
    open spec fn executes(&self, old: EditorState, new: EditorState) -> bool {
        self.effect(old, new)
    }

    open spec fn repeats(&self) -> bool {
        true
    }

    fn execute(&mut self, state: &mut EditorState) {
        DeleteFindForward::execute(self, state);
    }

    fn is_repeatable(&self) -> (b: bool) {
        DeleteFindForward::is_repeatable(self)
    }
}

impl Execute for DeleteTillForward {
    open spec fn executes(&self, old: EditorState, new: EditorState) -> bool {
        self.effect(old, new)
    }

    open spec fn repeats(&self) -> bool {
        true
    }

    fn execute(&mut self, state: &mut EditorState) {
        DeleteTillForward::execute(self, state);
    }

    fn is_repeatable(&self) -> (b: bool) {
        DeleteTillForward::is_repeatable(self)
    }
}

impl Execute for DeleteWordEnd {
    open spec fn executes(&self, old: EditorState, new: EditorState) -> bool {
        self.effect(old, new)
    }

    open spec fn repeats(&self) -> bool {
        false
    }

    fn execute(&mut self, state: &mut EditorState) {
        DeleteWordEnd::execute(self, state);
    }

    fn is_repeatable(&self) -> (b: bool) {
        DeleteWordEnd::is_repeatable(self)
    }
}

impl Execute for DeleteBigWordEnd {
    open spec fn executes(&self, old: EditorState, new: EditorState) -> bool {
        self.effect(old, new)
    }

    open spec fn repeats(&self) -> bool {
        false
    }

    fn execute(&mut self, state: &mut EditorState) {
        DeleteBigWordEnd::execute(self, state);
    }

    fn is_repeatable(&self) -> (b: bool) {
        DeleteBigWordEnd::is_repeatable(self)
    }
}

impl Execute for ChangeWord {
    open spec fn executes(&self, old: EditorState, new: EditorState) -> bool {
        self.effect(old, new)
    }

    open spec fn repeats(&self) -> bool {
        true
    }

    fn execute(&mut self, state: &mut EditorState) {
        ChangeWord::execute(self, state);
    }

    fn is_repeatable(&self) -> (b: bool) {
        ChangeWord::is_repeatable(self)
    }
}

impl Execute for ChangeBigWord {
    open spec fn executes(&self, old: EditorState, new: EditorState) -> bool {
        self.effect(old, new)
    }

    open spec fn repeats(&self) -> bool {
        true
    }

    fn execute(&mut self, state: &mut EditorState) {
        ChangeBigWord::execute(self, state);
    }

    fn is_repeatable(&self) -> (b: bool) {
        ChangeBigWord::is_repeatable(self)
    }
}

impl Execute for ChangeFindForward {
    open spec fn executes(&self, old: EditorState, new: EditorState) -> bool {
        self.effect(old, new)
    }

    open spec fn repeats(&self) -> bool {
        true
    }

    fn execute(&mut self, state: &mut EditorState) {
        ChangeFindForward::execute(self, state);
    }

    fn is_repeatable(&self) -> (b: bool) {
        ChangeFindForward::is_repeatable(self)
    }
}

impl Execute for ChangeTillForward {
    open spec fn executes(&self, old: EditorState, new: EditorState) -> bool {
        self.effect(old, new)
    }

    open spec fn repeats(&self) -> bool {
        true
    }

    fn execute(&mut self, state: &mut EditorState) {
        ChangeTillForward::execute(self, state);
    }

    fn is_repeatable(&self) -> (b: bool) {
        ChangeTillForward::is_repeatable(self)
    }
}

impl Execute for DeleteWordBackward {
    open spec fn executes(&self, old: EditorState, new: EditorState) -> bool {
        self.effect(old, new)
    }

    open spec fn repeats(&self) -> bool {
        true
    }

    fn execute(&mut self, state: &mut EditorState) {
        DeleteWordBackward::execute(self, state);
    }

    fn is_repeatable(&self) -> (b: bool) {
        DeleteWordBackward::is_repeatable(self)
    }
}

impl Execute for DeleteSelection {
    open spec fn executes(&self, old: EditorState, new: EditorState) -> bool {
        self.effect(old, new)
    }

    open spec fn repeats(&self) -> bool {
        true
    }

    fn execute(&mut self, state: &mut EditorState) {
        DeleteSelection::execute(self, state);
    }

    fn is_repeatable(&self) -> (b: bool) {
        DeleteSelection::is_repeatable(self)
    }
}

impl Execute for JoinLineWithLineBelow {
    open spec fn executes(&self, old: EditorState, new: EditorState) -> bool {
        self.effect(old, new)
    }

    open spec fn repeats(&self) -> bool {
        true
    }

    fn execute(&mut self, state: &mut EditorState) {
        JoinLineWithLineBelow::execute(self, state);
    }

    fn is_repeatable(&self) -> (b: bool) {
        JoinLineWithLineBelow::is_repeatable(self)
    }
}

impl Execute for SelectInnerBetween {
    open spec fn executes(&self, old: EditorState, new: EditorState) -> bool {
        self.effect(old, new)
    }

    open spec fn repeats(&self) -> bool {
        false
    }

    fn execute(&mut self, state: &mut EditorState) {
        SelectInnerBetween::execute(self, state);
    }

    fn is_repeatable(&self) -> (b: bool) {
        false
    }
}

impl Execute for SelectInnerWord {
    open spec fn executes(&self, old: EditorState, new: EditorState) -> bool {
        self.effect(old, new)
    }

    open spec fn repeats(&self) -> bool {
        false
    }

    fn execute(&mut self, state: &mut EditorState) {
        SelectInnerWord::execute(self, state);
    }

    fn is_repeatable(&self) -> (b: bool) {
        false
    }
}

impl Execute for ChangeInnerBetween {
    open spec fn executes(&self, old: EditorState, new: EditorState) -> bool {
        self.effect(old, new)
    }

    open spec fn repeats(&self) -> bool {
        true
    }

    fn execute(&mut self, state: &mut EditorState) {
        ChangeInnerBetween::execute(self, state);
    }

    fn is_repeatable(&self) -> (b: bool) {
        ChangeInnerBetween::is_repeatable(self)
    }
}

impl Execute for DeleteInnerBetween {
    open spec fn executes(&self, old: EditorState, new: EditorState) -> bool {
        self.effect(old, new)
    }

    open spec fn repeats(&self) -> bool {
        false
    }

    fn execute(&mut self, state: &mut EditorState) {
        DeleteInnerBetween::execute(self, state);
    }

    fn is_repeatable(&self) -> (b: bool) {
        false
    }
}

impl Execute for ChangeInnerWord {
    open spec fn executes(&self, old: EditorState, new: EditorState) -> bool {
        self.effect(old, new)
    }

    open spec fn repeats(&self) -> bool {
        true
    }

    fn execute(&mut self, state: &mut EditorState) {
        ChangeInnerWord::execute(self, state);
    }

    fn is_repeatable(&self) -> (b: bool) {
        ChangeInnerWord::is_repeatable(self)
    }
}

impl Execute for DeleteInnerWord {
    open spec fn executes(&self, old: EditorState, new: EditorState) -> bool {
        self.effect(old, new)
    }

    open spec fn repeats(&self) -> bool {
        false
    }

    fn execute(&mut self, state: &mut EditorState) {
        DeleteInnerWord::execute(self, state);
    }

    fn is_repeatable(&self) -> (b: bool) {
        false
    }
}

impl Execute for SelectInnerBigWord {
    open spec fn executes(&self, old: EditorState, new: EditorState) -> bool {
        self.effect(old, new)
    }

    open spec fn repeats(&self) -> bool {
        false
    }

    fn execute(&mut self, state: &mut EditorState) {
        SelectInnerBigWord::execute(self, state);
    }

    fn is_repeatable(&self) -> (b: bool) {
        false
    }
}

impl Execute for ChangeInnerBigWord {
    open spec fn executes(&self, old: EditorState, new: EditorState) -> bool {
        self.effect(old, new)
    }

    open spec fn repeats(&self) -> bool {
        true
    }

    fn execute(&mut self, state: &mut EditorState) {
        ChangeInnerBigWord::execute(self, state);
    }

    fn is_repeatable(&self) -> (b: bool) {
        ChangeInnerBigWord::is_repeatable(self)
    }
}

impl Execute for DeleteInnerBigWord {
    open spec fn executes(&self, old: EditorState, new: EditorState) -> bool {
        self.effect(old, new)
    }

    open spec fn repeats(&self) -> bool {
        false
    }

    fn execute(&mut self, state: &mut EditorState) {
        DeleteInnerBigWord::execute(self, state);
    }

    fn is_repeatable(&self) -> (b: bool) {
        false
    }
}

impl Execute for ChangeSelection {
    open spec fn executes(&self, old: EditorState, new: EditorState) -> bool {
        self.effect(old, new)
    }

    open spec fn repeats(&self) -> bool {
        true
    }

    fn execute(&mut self, state: &mut EditorState) {
        ChangeSelection::execute(self, state);
    }

    fn is_repeatable(&self) -> (b: bool) {
        ChangeSelection::is_repeatable(self)
    }
}

impl Execute for SelectLine {
    open spec fn executes(&self, old: EditorState, new: EditorState) -> bool {
        self.effect(old, new)
    }

    open spec fn repeats(&self) -> bool {
        false
    }

    fn execute(&mut self, state: &mut EditorState) {
        SelectLine::execute(self, state);
    }

    fn is_repeatable(&self) -> (b: bool) {
        false
    }
}

impl Execute for Undo {
    open spec fn executes(&self, old: EditorState, new: EditorState) -> bool {
        self.effect(old, new)
    }

    open spec fn repeats(&self) -> bool {
        false
    }

    fn execute(&mut self, state: &mut EditorState) {
        Undo::execute(self, state);
    }

    fn is_repeatable(&self) -> (b: bool) {
        false
    }
}

impl Execute for Redo {
    open spec fn executes(&self, old: EditorState, new: EditorState) -> bool {
        self.effect(old, new)
    }

    open spec fn repeats(&self) -> bool {
        false
    }

    fn execute(&mut self, state: &mut EditorState) {
        Redo::execute(self, state);
    }

    fn is_repeatable(&self) -> (b: bool) {
        false
    }
}

impl Execute for Paste {
    open spec fn executes(&self, old: EditorState, new: EditorState) -> bool {
        self.effect(old, new)
    }

    open spec fn repeats(&self) -> bool {
        true
    }

    fn execute(&mut self, state: &mut EditorState) {
        Paste::execute(self, state);
    }

    fn is_repeatable(&self) -> (b: bool) {
        Paste::is_repeatable(self)
    }
}

impl Execute for PasteBefore {
    open spec fn executes(&self, old: EditorState, new: EditorState) -> bool {
        self.effect(old, new)
    }

    open spec fn repeats(&self) -> bool {
        true
    }

    fn execute(&mut self, state: &mut EditorState) {
        PasteBefore::execute(self, state);
    }

    fn is_repeatable(&self) -> (b: bool) {
        PasteBefore::is_repeatable(self)
    }
}

impl Execute for PasteOverSelection {
    open spec fn executes(&self, old: EditorState, new: EditorState) -> bool {
        self.effect(old, new)
    }

    open spec fn repeats(&self) -> bool {
        true
    }

    fn execute(&mut self, state: &mut EditorState) {
        PasteOverSelection::execute(self, state);
    }

    fn is_repeatable(&self) -> (b: bool) {
        PasteOverSelection::is_repeatable(self)
    }
}

impl Execute for CopySelection {
    open spec fn executes(&self, old: EditorState, new: EditorState) -> bool {
        self.effect(old, new)
    }

    open spec fn repeats(&self) -> bool {
        false
    }

    fn execute(&mut self, state: &mut EditorState) {
        CopySelection::execute(self, state);
    }

    fn is_repeatable(&self) -> (b: bool) {
        false
    }
}

impl Execute for CopyLine {
    open spec fn executes(&self, old: EditorState, new: EditorState) -> bool {
        self.effect(old, new)
    }

    open spec fn repeats(&self) -> bool {
        false
    }

    fn execute(&mut self, state: &mut EditorState) {
        CopyLine::execute(self, state);
    }

    fn is_repeatable(&self) -> (b: bool) {
        false
    }
}

impl Execute for StartSearch {
    open spec fn executes(&self, old: EditorState, new: EditorState) -> bool {
        self.effect(old, new)
    }

    open spec fn repeats(&self) -> bool {
        false
    }

    fn execute(&mut self, state: &mut EditorState) {
        StartSearch::execute(self, state);
    }

    fn is_repeatable(&self) -> (b: bool) {
        false
    }
}

impl Execute for StopSearch {
    open spec fn executes(&self, old: EditorState, new: EditorState) -> bool {
        self.effect(old, new)
    }

    open spec fn repeats(&self) -> bool {
        false
    }

    fn execute(&mut self, state: &mut EditorState) {
        StopSearch::execute(self, state);
    }

    fn is_repeatable(&self) -> (b: bool) {
        false
    }
}

impl Execute for FindFirst {
    open spec fn executes(&self, old: EditorState, new: EditorState) -> bool {
        self.effect(old, new)
    }

    open spec fn repeats(&self) -> bool {
        false
    }

    fn execute(&mut self, state: &mut EditorState) {
        FindFirst::execute(self, state);
    }

    fn is_repeatable(&self) -> (b: bool) {
        false
    }
}

impl Execute for FindNext {
    open spec fn executes(&self, old: EditorState, new: EditorState) -> bool {
        self.effect(old, new)
    }

    open spec fn repeats(&self) -> bool {
        false
    }

    fn execute(&mut self, state: &mut EditorState) {
        FindNext::execute(self, state);
    }

    fn is_repeatable(&self) -> (b: bool) {
        false
    }
}

impl Execute for FindPrevious {
    open spec fn executes(&self, old: EditorState, new: EditorState) -> bool {
        self.effect(old, new)
    }

    open spec fn repeats(&self) -> bool {
        false
    }

    fn execute(&mut self, state: &mut EditorState) {
        FindPrevious::execute(self, state);
    }

    fn is_repeatable(&self) -> (b: bool) {
        false
    }
}

impl Execute for SelectCurrentSearch {
    open spec fn executes(&self, old: EditorState, new: EditorState) -> bool {
        self.effect(old, new)
    }

    open spec fn repeats(&self) -> bool {
        false
    }

    fn execute(&mut self, state: &mut EditorState) {
        SelectCurrentSearch::execute(self, state);
    }

    fn is_repeatable(&self) -> (b: bool) {
        false
    }
}

impl Execute for AppendToSearch {
    open spec fn executes(&self, old: EditorState, new: EditorState) -> bool {
        self.effect(old, new)
    }

    open spec fn repeats(&self) -> bool {
        false
    }

    fn execute(&mut self, state: &mut EditorState) {
        AppendToSearch::execute(self, state);
    }

    fn is_repeatable(&self) -> (b: bool) {
        false
    }
}

impl Execute for DeleteFromSearch {
    open spec fn executes(&self, old: EditorState, new: EditorState) -> bool {
        self.effect(old, new)
    }

    open spec fn repeats(&self) -> bool {
        false
    }

    fn execute(&mut self, state: &mut EditorState) {
        DeleteFromSearch::execute(self, state);
    }

    fn is_repeatable(&self) -> (b: bool) {
        false
    }
}

impl Execute for ClearSearch {
    open spec fn executes(&self, old: EditorState, new: EditorState) -> bool {
        self.effect(old, new)
    }

    open spec fn repeats(&self) -> bool {
        false
    }

    fn execute(&mut self, state: &mut EditorState) {
        ClearSearch::execute(self, state);
    }

    fn is_repeatable(&self) -> (b: bool) {
        false
    }
}

impl Execute for OpenSystemEditor {
    open spec fn executes(&self, old: EditorState, new: EditorState) -> bool {
        self.effect(old, new)
    }

    open spec fn repeats(&self) -> bool {
        false
    }

    fn execute(&mut self, state: &mut EditorState) {
        OpenSystemEditor::execute(self, state);
    }

    fn is_repeatable(&self) -> (b: bool) {
        false
    }
}

impl<'a> Execute for PushLine<'a> {
    open spec fn executes(&self, old: EditorState, new: EditorState) -> bool {
        self.effect(old, new)
    }

    open spec fn repeats(&self) -> bool {
        false
    }

    fn execute(&mut self, state: &mut EditorState) {
        PushLine::execute(self, state);
    }

    fn is_repeatable(&self) -> (b: bool) {
        false
    }
}

/// Repeats the last change (the dot command): the recorded action runs
/// again, then the text typed after it is inserted and normal mode entered.
#[derive(Clone, Debug, Copy, PartialEq, Eq, Structural)]
pub struct RepeatLastChange;

impl RepeatLastChange {
    pub open spec fn effect(self, old: EditorState, new: EditorState) -> bool {
        action_effect(Action::RepeatLastChange(self), old, new, true)
    }

    pub fn execute(&self, state: &mut EditorState)
        ensures
            self.effect(*old(state), *final(state)),
    {
        Action::RepeatLastChange(*self).run(state, true);
    }
}

impl Execute for RepeatLastChange {
    open spec fn executes(&self, old: EditorState, new: EditorState) -> bool {
        self.effect(old, new)
    }

    open spec fn repeats(&self) -> bool {
        false
    }

    fn execute(&mut self, state: &mut EditorState) {
        RepeatLastChange::execute(self, state);
    }

    fn is_repeatable(&self) -> (b: bool) {
        false
    }
}

/// Executes several actions one after the other.
#[derive(Debug)]
pub struct Composed(pub Vec<Action>);

impl Composed {
    /// A composition of one action.
    pub fn new(action: Action) -> (c: Self)
        ensures
            c.0@ == seq![action],
    {
        Composed(vec![action])
    }

    /// Appends an action.
    pub fn chain(self, action: Action) -> (c: Self)
        ensures
            c.0@ == self.0@.push(action),
    {
        let mut v = self.0;
        v.push(action);
        Composed(v)
    }

    pub open spec fn effect(self, old: EditorState, new: EditorState) -> bool {
        seq_effect(self.0@, old, new, true)
    }

    pub fn execute(self, state: &mut EditorState)
        ensures
            self.effect(*old(state), *final(state)),
    {
        let a = Action::Composed(self);
        a.run(state, true);
    }
}

impl Clone for Composed {
    /// A copy whose actions do the same.
    fn clone(&self) -> (c: Self)
        ensures
            same_actions(self.0@, c.0@),
    {
        let mut copies: Vec<Action> = Vec::new();
        let mut i: usize = 0;
        assert(self.0@.take(0) =~= Seq::<Action>::empty());
        while i < self.0.len()
            invariant
                i <= self.0@.len(),
                same_actions(self.0@.take(i as int), copies@),
            decreases self.0@.len() - i,
        {
            let copy = self.0[i].duplicate();
            let ghost prev = copies@;
            copies.push(copy);
            proof {
                assert(self.0@.take(i + 1).drop_last() =~= self.0@.take(i as int));
                assert(copies@.drop_last() =~= prev);
            }
            i = i + 1;
        }
        assert(self.0@.take(i as int) =~= self.0@);
        Composed(copies)
    }
}

impl Execute for Composed {
    open spec fn executes(&self, old: EditorState, new: EditorState) -> bool {
        seq_effect(self.0@, old, new, true)
    }

    open spec fn repeats(&self) -> bool {
        any_repeatable(self.0@)
    }

    fn execute(&mut self, state: &mut EditorState) {
        let mut actions: Vec<Action> = Vec::new();
        std::mem::swap(&mut actions, &mut self.0);
        let a = Action::Composed(Composed(actions));
        a.run(state, true);
        if let Action::Composed(c) = a {
            self.0 = c.0;
        }
    }

    fn is_repeatable(&self) -> (b: bool) {
        let mut k: usize = self.0.len();
        assert(self.0@.take(k as int) =~= self.0@);
        while k > 0
            invariant
                k <= self.0@.len(),
                any_repeatable(self.0@) == any_repeatable(self.0@.take(k as int)),
            decreases k,
        {
            proof {
                assert(self.0@.take(k as int).drop_last() =~= self.0@.take(k - 1));
            }
            if self.0[k - 1].is_repeatable() {
                return true;
            }
            k = k - 1;
        }
        false
    }
}

/// Chaining actions into a [`Composed`] one.
pub trait Chainable {
    /// The action that the chain starts with.
    spec fn first_action(&self) -> Action;

    /// Chains another action behind this one.
    fn chain(self, action: Action) -> (c: Composed)
        ensures
            c.0@ == seq![self.first_action(), action],
    ;
}

impl Chainable for Action {
    open spec fn first_action(&self) -> Action {
        *self
    }

    fn chain(self, action: Action) -> (c: Composed) {
        Composed::new(self).chain(action)
    }
}

} // verus!
