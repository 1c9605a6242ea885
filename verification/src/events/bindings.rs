//! What the default key maps bind, stated over the bindings they give.
use vstd::prelude::*;
use crate::actions::{Action, AppendNewline, ChangeWord, CopyLine, DeleteChar, DeleteCharForward, DeleteLine, DeleteToEndOfLine, DeleteToFirstCharOfLine, DeleteWordForward, FindNext, FindPrevious, InsertNewline, JoinLineWithLineBelow, LineBreak, MoveBackward, MoveDown, MoveForward, MoveHalfPageDown, MoveHalfPageUp, MoveParagraphBackward, MoveParagraphForward, MoveToEndOfLine, MoveToFirst, MoveToFirstRow, MoveToLastRow, MoveToMatchinBracket, MoveToStartOfLine, MoveUp, MoveWordBackward, MoveWordForward, MoveWordForwardToEndOfWord, OpenSystemEditor, Paste, Redo, RemoveChar, RepeatLastChange, SelectLine, StartSearch, SwitchMode, Undo};
use crate::events::input::{KeyCode, KeyInput, Modifiers, key_input, no_modifiers, ctrl_modifier, alt_modifier, shift_modifier};
use crate::events::key::{KeyEventRegister, reg_key, to_map};
use crate::events::keymap::{Bound, bound_as, matches_table, vim_table, vim_0_table, vim_1_table, vim_2_table, vim_3_table, vim_4_table, vim_5_table, vim_6_table, vim_7_table, vim_8_table, vim_9_table, vim_10_table, emacs_table, emacs_0_table, emacs_1_table, emacs_2_table, emacs_3_table};
use crate::mode::EditorMode;

verus! {

/// What the first `n` entries of a key map table bind a key sequence to:
/// the last of them for that sequence.
spec fn table_binding(t: Seq<((Seq<KeyInput>, EditorMode), Bound)>, n: int, k: (Seq<KeyInput>, EditorMode)) -> Option<Bound>
    decreases n,
{
    if n <= 0 || n > t.len() {
        None
    } else if t[n - 1].0 == k {
        Some(t[n - 1].1)
    } else {
        table_binding(t, n - 1, k)
    }
}

/// Bindings that hold a table's entries bind what the table binds.
proof fn lemma_table_binding_map(v: Seq<(KeyEventRegister, Action)>, t: Seq<((Seq<KeyInput>, EditorMode), Bound)>, n: int, k: (Seq<KeyInput>, EditorMode))
    requires
        matches_table(v, t),
        0 <= n <= v.len(),
    ensures
        table_binding(t, n, k) matches Some(b) ==> to_map(v.take(n)).contains_key(k) && bound_as(to_map(v.take(n))[k], b),
        table_binding(t, n, k) is None ==> !to_map(v.take(n)).contains_key(k),
    decreases n,
{
    if n == 0 {
        assert(v.take(0) =~= Seq::<(KeyEventRegister, Action)>::empty());
    } else {
        lemma_table_binding_map(v, t, n - 1, k);
        assert(v.take(n).drop_last() =~= v.take(n - 1));
        assert(v.take(n).last() == v[n - 1]);
        assert(reg_key(v[n - 1].0) == t[n - 1].0 && bound_as(v[n - 1].1, t[n - 1].1));
    }
}

/// A first part of a joined table binds as the part alone.
proof fn lemma_table_binding_prefix(a: Seq<((Seq<KeyInput>, EditorMode), Bound)>, b: Seq<((Seq<KeyInput>, EditorMode), Bound)>, j: int, k: (Seq<KeyInput>, EditorMode))
    requires
        0 <= j <= a.len(),
    ensures
        table_binding(a + b, j, k) == table_binding(a, j, k),
    decreases j,
{
    if j > 0 {
        lemma_table_binding_prefix(a, b, j - 1, k);
        assert((a + b)[j - 1] == a[j - 1]);
    }
}

/// A joined table binds as its second part, or as its first part where the
/// second does not bind the sequence.
proof fn lemma_table_binding_concat(a: Seq<((Seq<KeyInput>, EditorMode), Bound)>, b: Seq<((Seq<KeyInput>, EditorMode), Bound)>, m: int, k: (Seq<KeyInput>, EditorMode))
    requires
        0 <= m <= b.len(),
    ensures
        table_binding(a + b, a.len() + m, k) == (match table_binding(b, m, k) {
            Some(x) => Some(x),
            None => table_binding(a, a.len() as int, k),
        }),
    decreases m,
{
    if m == 0 {
        lemma_table_binding_prefix(a, b, a.len() as int, k);
    } else {
        lemma_table_binding_concat(a, b, m - 1, k);
        assert((a + b)[a.len() + m - 1] == b[m - 1]);
    }
}

/// A plain key pressed in normal mode.
pub open spec fn normal_key(ch: char) -> (Seq<KeyInput>, EditorMode) {
    (seq![key_input(KeyCode::Char(ch), no_modifiers())], EditorMode::Normal)
}

proof fn lemma_vim_0_plain(ch: char)
    ensures
        table_binding(vim_0_table(), vim_0_table().len() as int, normal_key(ch)) == (if ch == 'l' { Some(Bound::One(Action::MoveForward(MoveForward(1)))) } else { if ch == 'a' { Some(Bound::Chain(seq![Action::SwitchMode(SwitchMode(EditorMode::Insert)), Action::MoveForward(MoveForward(1))])) } else { if ch == 'n' { Some(Bound::One(Action::FindNext(FindNext))) } else { if ch == '/' { Some(Bound::Chain(seq![Action::StartSearch(StartSearch), Action::SwitchMode(SwitchMode(EditorMode::Search))])) } else { if ch == 'v' { Some(Bound::One(Action::SwitchMode(SwitchMode(EditorMode::Visual)))) } else { if ch == 'i' { Some(Bound::One(Action::SwitchMode(SwitchMode(EditorMode::Insert)))) } else { None } } } } } }),
{
    reveal_with_fuel(table_binding, 13);
    let t = vim_0_table();
    let k = normal_key(ch);
    assert(t.len() == 12);
    assert(t[0].0.1 != k.1);
    assert(t[1].0.1 != k.1);
    assert(t[2].0 == normal_key('i'));
    assert(ch != 'i' ==> t[2].0.0[0] != k.0[0]);
    assert(t[3].0 == normal_key('v'));
    assert(ch != 'v' ==> t[3].0.0[0] != k.0[0]);
    assert(t[4].0 == normal_key('/'));
    assert(ch != '/' ==> t[4].0.0[0] != k.0[0]);
    assert(t[5].0.1 != k.1);
    assert(t[6].0 == normal_key('n'));
    assert(ch != 'n' ==> t[6].0.0[0] != k.0[0]);
    assert(t[7].0.0[0] != k.0[0]);
    assert(t[8].0.1 != k.1);
    assert(t[9].0.1 != k.1);
    assert(t[10].0 == normal_key('a'));
    assert(ch != 'a' ==> t[10].0.0[0] != k.0[0]);
    assert(t[11].0 == normal_key('l'));
    assert(ch != 'l' ==> t[11].0.0[0] != k.0[0]);
}

proof fn lemma_vim_1_plain(ch: char)
    ensures
        table_binding(vim_1_table(), vim_1_table().len() as int, normal_key(ch)) == (if ch == 'k' { Some(Bound::One(Action::MoveUp(MoveUp(1)))) } else { if ch == 'h' { Some(Bound::One(Action::MoveBackward(MoveBackward(1)))) } else { None } }),
{
    reveal_with_fuel(table_binding, 13);
    let t = vim_1_table();
    let k = normal_key(ch);
    assert(t.len() == 12);
    assert(t[0].0.1 != k.1);
    assert(t[1].0.0[0] != k.0[0]);
    assert(t[2].0.1 != k.1);
    assert(t[3].0.1 != k.1);
    assert(t[4].0 == normal_key('h'));
    assert(ch != 'h' ==> t[4].0.0[0] != k.0[0]);
    assert(t[5].0.1 != k.1);
    assert(t[6].0.0[0] != k.0[0]);
    assert(t[7].0.1 != k.1);
    assert(t[8].0.1 != k.1);
    assert(t[9].0.1 != k.1);
    assert(t[10].0.1 != k.1);
    assert(t[11].0 == normal_key('k'));
    assert(ch != 'k' ==> t[11].0.0[0] != k.0[0]);
}

proof fn lemma_vim_2_plain(ch: char)
    ensures
        table_binding(vim_2_table(), vim_2_table().len() as int, normal_key(ch)) == (if ch == 'e' { Some(Bound::One(Action::MoveWordForwardToEndOfWord(MoveWordForwardToEndOfWord(1)))) } else { if ch == 'w' { Some(Bound::One(Action::MoveWordForward(MoveWordForward(1)))) } else { if ch == 'j' { Some(Bound::One(Action::MoveDown(MoveDown(1)))) } else { None } } }),
{
    reveal_with_fuel(table_binding, 13);
    let t = vim_2_table();
    let k = normal_key(ch);
    assert(t.len() == 12);
    assert(t[0].0.1 != k.1);
    assert(t[1].0.0[0] != k.0[0]);
    assert(t[2].0.1 != k.1);
    assert(t[3].0.1 != k.1);
    assert(t[4].0 == normal_key('j'));
    assert(ch != 'j' ==> t[4].0.0[0] != k.0[0]);
    assert(t[5].0.1 != k.1);
    assert(t[6].0.0[0] != k.0[0]);
    assert(t[7].0.1 != k.1);
    assert(t[8].0.1 != k.1);
    assert(t[9].0 == normal_key('w'));
    assert(ch != 'w' ==> t[9].0.0[0] != k.0[0]);
    assert(t[10].0.1 != k.1);
    assert(t[11].0 == normal_key('e'));
    assert(ch != 'e' ==> t[11].0.0[0] != k.0[0]);
}

proof fn lemma_vim_3_plain(ch: char)
    ensures
        table_binding(vim_3_table(), vim_3_table().len() as int, normal_key(ch)) == (if ch == '$' { Some(Bound::One(Action::MoveToEndOfLine(MoveToEndOfLine()))) } else { if ch == '_' { Some(Bound::One(Action::MoveToFirst(MoveToFirst()))) } else { if ch == '0' { Some(Bound::One(Action::MoveToStartOfLine(MoveToStartOfLine()))) } else { if ch == 'b' { Some(Bound::One(Action::MoveWordBackward(MoveWordBackward(1)))) } else { None } } } }),
{
    reveal_with_fuel(table_binding, 13);
    let t = vim_3_table();
    let k = normal_key(ch);
    assert(t.len() == 12);
    assert(t[0].0.1 != k.1);
    assert(t[1].0 == normal_key('b'));
    assert(ch != 'b' ==> t[1].0.0[0] != k.0[0]);
    assert(t[2].0.1 != k.1);
    assert(t[3].0 == normal_key('0'));
    assert(ch != '0' ==> t[3].0.0[0] != k.0[0]);
    assert(t[4].0 == normal_key('_'));
    assert(ch != '_' ==> t[4].0.0[0] != k.0[0]);
    assert(t[5].0 == normal_key('$'));
    assert(ch != '$' ==> t[5].0.0[0] != k.0[0]);
    assert(t[6].0.1 != k.1);
    assert(t[7].0.1 != k.1);
    assert(t[8].0.1 != k.1);
    assert(t[9].0.0[0] != k.0[0]);
    assert(t[10].0.1 != k.1);
    assert(t[11].0.0[0] != k.0[0]);
}

proof fn lemma_vim_4_plain(ch: char)
    ensures
        table_binding(vim_4_table(), vim_4_table().len() as int, normal_key(ch)) is None,
{
    reveal_with_fuel(table_binding, 13);
    let t = vim_4_table();
    let k = normal_key(ch);
    assert(t.len() == 12);
    assert(t[0].0.1 != k.1);
    assert(t[1].0.0[0] != k.0[0]);
    assert(t[2].0.1 != k.1);
    assert(t[3].0.1 != k.1);
    assert(t[4].0.0[0] != k.0[0]);
    assert(t[5].0.1 != k.1);
    assert(t[6].0.1 != k.1);
    assert(t[7].0.1 != k.1);
    assert(t[8].0.0[0] != k.0[0]);
    assert(t[9].0.1 != k.1);
    assert(t[10].0.1 != k.1);
    assert(t[11].0.0[0] != k.0[0]);
}

proof fn lemma_vim_5_plain(ch: char)
    ensures
        table_binding(vim_5_table(), vim_5_table().len() as int, normal_key(ch)) == (if ch == '}' { Some(Bound::One(Action::MoveParagraphForward(MoveParagraphForward()))) } else { if ch == '%' { Some(Bound::One(Action::MoveToMatchingBracket(MoveToMatchinBracket()))) } else { None } }),
{
    reveal_with_fuel(table_binding, 13);
    let t = vim_5_table();
    let k = normal_key(ch);
    assert(t.len() == 12);
    assert(t[0].0.1 != k.1);
    assert(t[1].0.1 != k.1);
    assert(t[2].0.0[0] != k.0[0]);
    assert(t[3].0.0[0] != k.0[0]);
    assert(t[4].0.0.len() != k.0.len());
    assert(t[5].0.1 != k.1);
    assert(t[6].0.0[0] != k.0[0]);
    assert(t[7].0.1 != k.1);
    assert(t[8].0 == normal_key('%'));
    assert(ch != '%' ==> t[8].0.0[0] != k.0[0]);
    assert(t[9].0.1 != k.1);
    assert(t[10].0 == normal_key('}'));
    assert(ch != '}' ==> t[10].0.0[0] != k.0[0]);
    assert(t[11].0.1 != k.1);
}

proof fn lemma_vim_6_plain(ch: char)
    ensures
        table_binding(vim_6_table(), vim_6_table().len() as int, normal_key(ch)) == (if ch == 'x' { Some(Bound::One(Action::RemoveChar(RemoveChar(1)))) } else { if ch == 'o' { Some(Bound::Chain(seq![Action::SwitchMode(SwitchMode(EditorMode::Insert)), Action::AppendNewline(AppendNewline(1))])) } else { if ch == '{' { Some(Bound::One(Action::MoveParagraphBackward(MoveParagraphBackward()))) } else { None } } }),
{
    reveal_with_fuel(table_binding, 13);
    let t = vim_6_table();
    let k = normal_key(ch);
    assert(t.len() == 12);
    assert(t[0].0 == normal_key('{'));
    assert(ch != '{' ==> t[0].0.0[0] != k.0[0]);
    assert(t[1].0.1 != k.1);
    assert(t[2].0 == normal_key('o'));
    assert(ch != 'o' ==> t[2].0.0[0] != k.0[0]);
    assert(t[3].0.0[0] != k.0[0]);
    assert(t[4].0.1 != k.1);
    assert(t[5].0 == normal_key('x'));
    assert(ch != 'x' ==> t[5].0.0[0] != k.0[0]);
    assert(t[6].0.0[0] != k.0[0]);
    assert(t[7].0.1 != k.1);
    assert(t[8].0.1 != k.1);
    assert(t[9].0.0.len() != k.0.len());
    assert(t[10].0.0.len() != k.0.len());
    assert(t[11].0.0.len() != k.0.len());
}

proof fn lemma_vim_7_plain(ch: char)
    ensures
        table_binding(vim_7_table(), vim_7_table().len() as int, normal_key(ch)) is None,
{
    reveal_with_fuel(table_binding, 13);
    let t = vim_7_table();
    let k = normal_key(ch);
    assert(t.len() == 12);
    assert(t[0].0.0.len() != k.0.len());
    assert(t[1].0.0.len() != k.0.len());
    assert(t[2].0.0[0] != k.0[0]);
    assert(t[3].0.1 != k.1);
    assert(t[4].0.0[0] != k.0[0]);
    assert(t[5].0.1 != k.1);
    assert(t[6].0.1 != k.1);
    assert(t[7].0.1 != k.1);
    assert(t[8].0.1 != k.1);
    assert(t[9].0.1 != k.1);
    assert(t[10].0.1 != k.1);
    assert(t[11].0.1 != k.1);
}

proof fn lemma_vim_8_plain(ch: char)
    ensures
        table_binding(vim_8_table(), vim_8_table().len() as int, normal_key(ch)) is None,
{
    reveal_with_fuel(table_binding, 13);
    let t = vim_8_table();
    let k = normal_key(ch);
    assert(t.len() == 12);
    assert(t[0].0.1 != k.1);
    assert(t[1].0.1 != k.1);
    assert(t[2].0.0.len() != k.0.len());
    assert(t[3].0.0.len() != k.0.len());
    assert(t[4].0.0.len() != k.0.len());
    assert(t[5].0.0.len() != k.0.len());
    assert(t[6].0.0.len() != k.0.len());
    assert(t[7].0.0.len() != k.0.len());
    assert(t[8].0.0.len() != k.0.len());
    assert(t[9].0.0.len() != k.0.len());
    assert(t[10].0.0.len() != k.0.len());
    assert(t[11].0.0.len() != k.0.len());
}

proof fn lemma_vim_9_plain(ch: char)
    ensures
        table_binding(vim_9_table(), vim_9_table().len() as int, normal_key(ch)) is None,
{
    reveal_with_fuel(table_binding, 13);
    let t = vim_9_table();
    let k = normal_key(ch);
    assert(t.len() == 12);
    assert(t[0].0.0.len() != k.0.len());
    assert(t[1].0.0.len() != k.0.len());
    assert(t[2].0.0.len() != k.0.len());
    assert(t[3].0.0.len() != k.0.len());
    assert(t[4].0.0.len() != k.0.len());
    assert(t[5].0.0.len() != k.0.len());
    assert(t[6].0.0.len() != k.0.len());
    assert(t[7].0.0.len() != k.0.len());
    assert(t[8].0.0.len() != k.0.len());
    assert(t[9].0.0.len() != k.0.len());
    assert(t[10].0.1 != k.1);
    assert(t[11].0.1 != k.1);
}

proof fn lemma_vim_10_plain(ch: char)
    ensures
        table_binding(vim_10_table(), vim_10_table().len() as int, normal_key(ch)) == (if ch == 'p' { Some(Bound::One(Action::Paste(Paste))) } else { if ch == '.' { Some(Bound::One(Action::RepeatLastChange(RepeatLastChange))) } else { if ch == 'r' { Some(Bound::One(Action::Redo(Redo))) } else { if ch == 'u' { Some(Bound::One(Action::Undo(Undo))) } else { None } } } }),
{
    reveal_with_fuel(table_binding, 13);
    let t = vim_10_table();
    let k = normal_key(ch);
    assert(t.len() == 10);
    assert(t[0].0.0[0] != k.0[0]);
    assert(t[1].0 == normal_key('u'));
    assert(ch != 'u' ==> t[1].0.0[0] != k.0[0]);
    assert(t[2].0.0[0] != k.0[0]);
    assert(t[3].0 == normal_key('r'));
    assert(ch != 'r' ==> t[3].0.0[0] != k.0[0]);
    assert(t[4].0 == normal_key('.'));
    assert(ch != '.' ==> t[4].0.0[0] != k.0[0]);
    assert(t[5].0.1 != k.1);
    assert(t[6].0.0.len() != k.0.len());
    assert(t[7].0 == normal_key('p'));
    assert(ch != 'p' ==> t[7].0.0[0] != k.0[0]);
    assert(t[8].0.1 != k.1);
    assert(t[9].0.0[0] != k.0[0]);
}

/// What the Vim-like table binds a plain key pressed in normal mode to.
spec fn vim_plain_normal(ch: char) -> Option<Bound> {
    if ch == 'p' { Some(Bound::One(Action::Paste(Paste))) } else { if ch == '.' { Some(Bound::One(Action::RepeatLastChange(RepeatLastChange))) } else { if ch == 'r' { Some(Bound::One(Action::Redo(Redo))) } else { if ch == 'u' { Some(Bound::One(Action::Undo(Undo))) } else { if ch == 'x' { Some(Bound::One(Action::RemoveChar(RemoveChar(1)))) } else { if ch == 'o' { Some(Bound::Chain(seq![Action::SwitchMode(SwitchMode(EditorMode::Insert)), Action::AppendNewline(AppendNewline(1))])) } else { if ch == '{' { Some(Bound::One(Action::MoveParagraphBackward(MoveParagraphBackward()))) } else { if ch == '}' { Some(Bound::One(Action::MoveParagraphForward(MoveParagraphForward()))) } else { if ch == '%' { Some(Bound::One(Action::MoveToMatchingBracket(MoveToMatchinBracket()))) } else { if ch == '$' { Some(Bound::One(Action::MoveToEndOfLine(MoveToEndOfLine()))) } else { if ch == '_' { Some(Bound::One(Action::MoveToFirst(MoveToFirst()))) } else { if ch == '0' { Some(Bound::One(Action::MoveToStartOfLine(MoveToStartOfLine()))) } else { if ch == 'b' { Some(Bound::One(Action::MoveWordBackward(MoveWordBackward(1)))) } else { if ch == 'e' { Some(Bound::One(Action::MoveWordForwardToEndOfWord(MoveWordForwardToEndOfWord(1)))) } else { if ch == 'w' { Some(Bound::One(Action::MoveWordForward(MoveWordForward(1)))) } else { if ch == 'j' { Some(Bound::One(Action::MoveDown(MoveDown(1)))) } else { if ch == 'k' { Some(Bound::One(Action::MoveUp(MoveUp(1)))) } else { if ch == 'h' { Some(Bound::One(Action::MoveBackward(MoveBackward(1)))) } else { if ch == 'l' { Some(Bound::One(Action::MoveForward(MoveForward(1)))) } else { if ch == 'a' { Some(Bound::Chain(seq![Action::SwitchMode(SwitchMode(EditorMode::Insert)), Action::MoveForward(MoveForward(1))])) } else { if ch == 'n' { Some(Bound::One(Action::FindNext(FindNext))) } else { if ch == '/' { Some(Bound::Chain(seq![Action::StartSearch(StartSearch), Action::SwitchMode(SwitchMode(EditorMode::Search))])) } else { if ch == 'v' { Some(Bound::One(Action::SwitchMode(SwitchMode(EditorMode::Visual)))) } else { if ch == 'i' { Some(Bound::One(Action::SwitchMode(SwitchMode(EditorMode::Insert)))) } else { None } } } } } } } } } } } } } } } } } } } } } } } }
}

proof fn lemma_vim_plain(ch: char)
    ensures
        table_binding(vim_table(), vim_table().len() as int, normal_key(ch)) == vim_plain_normal(ch),
{
    let k = normal_key(ch);
    lemma_vim_0_plain(ch);
    lemma_vim_1_plain(ch);
    lemma_table_binding_concat(vim_0_table(), vim_1_table(), vim_1_table().len() as int, k);
    lemma_vim_2_plain(ch);
    lemma_table_binding_concat(vim_0_table() + vim_1_table(), vim_2_table(), vim_2_table().len() as int, k);
    lemma_vim_3_plain(ch);
    lemma_table_binding_concat(vim_0_table() + vim_1_table() + vim_2_table(), vim_3_table(), vim_3_table().len() as int, k);
    lemma_vim_4_plain(ch);
    lemma_table_binding_concat(vim_0_table() + vim_1_table() + vim_2_table() + vim_3_table(), vim_4_table(), vim_4_table().len() as int, k);
    lemma_vim_5_plain(ch);
    lemma_table_binding_concat(vim_0_table() + vim_1_table() + vim_2_table() + vim_3_table() + vim_4_table(), vim_5_table(), vim_5_table().len() as int, k);
    lemma_vim_6_plain(ch);
    lemma_table_binding_concat(vim_0_table() + vim_1_table() + vim_2_table() + vim_3_table() + vim_4_table() + vim_5_table(), vim_6_table(), vim_6_table().len() as int, k);
    lemma_vim_7_plain(ch);
    lemma_table_binding_concat(vim_0_table() + vim_1_table() + vim_2_table() + vim_3_table() + vim_4_table() + vim_5_table() + vim_6_table(), vim_7_table(), vim_7_table().len() as int, k);
    lemma_vim_8_plain(ch);
    lemma_table_binding_concat(vim_0_table() + vim_1_table() + vim_2_table() + vim_3_table() + vim_4_table() + vim_5_table() + vim_6_table() + vim_7_table(), vim_8_table(), vim_8_table().len() as int, k);
    lemma_vim_9_plain(ch);
    lemma_table_binding_concat(vim_0_table() + vim_1_table() + vim_2_table() + vim_3_table() + vim_4_table() + vim_5_table() + vim_6_table() + vim_7_table() + vim_8_table(), vim_9_table(), vim_9_table().len() as int, k);
    lemma_vim_10_plain(ch);
    lemma_table_binding_concat(vim_0_table() + vim_1_table() + vim_2_table() + vim_3_table() + vim_4_table() + vim_5_table() + vim_6_table() + vim_7_table() + vim_8_table() + vim_9_table(), vim_10_table(), vim_10_table().len() as int, k);
}

/// The Vim-like key map binds the plain keys of normal mode as its
/// documentation lists them: `h`, `j`, `k`, `l` move left, down, up and
/// right; `w`, `b`, `e` move by words; `0`, `_`, `$` go to the start, the
/// first non-blank character and the end of the line; `{`, `}` move by
/// paragraphs and `%` to the matching bracket; `i` and `v` switch to insert
/// and visual mode; `n` finds the next match; `x` removes the character under
/// the cursor; `u` undoes and `r` redoes; `.` repeats the last change; `p`
/// pastes.
pub open spec fn vim_plain_keys_bound(m: Map<(Seq<KeyInput>, EditorMode), Action>) -> bool {
    &&& m.contains_key(normal_key('h')) && m[normal_key('h')] == Action::MoveBackward(MoveBackward(1))
    &&& m.contains_key(normal_key('j')) && m[normal_key('j')] == Action::MoveDown(MoveDown(1))
    &&& m.contains_key(normal_key('k')) && m[normal_key('k')] == Action::MoveUp(MoveUp(1))
    &&& m.contains_key(normal_key('l')) && m[normal_key('l')] == Action::MoveForward(MoveForward(1))
    &&& m.contains_key(normal_key('w')) && m[normal_key('w')] == Action::MoveWordForward(MoveWordForward(1))
    &&& m.contains_key(normal_key('b')) && m[normal_key('b')] == Action::MoveWordBackward(MoveWordBackward(1))
    &&& m.contains_key(normal_key('e')) && m[normal_key('e')] == Action::MoveWordForwardToEndOfWord(MoveWordForwardToEndOfWord(1))
    &&& m.contains_key(normal_key('0')) && m[normal_key('0')] == Action::MoveToStartOfLine(MoveToStartOfLine())
    &&& m.contains_key(normal_key('_')) && m[normal_key('_')] == Action::MoveToFirst(MoveToFirst())
    &&& m.contains_key(normal_key('$')) && m[normal_key('$')] == Action::MoveToEndOfLine(MoveToEndOfLine())
    &&& m.contains_key(normal_key('{')) && m[normal_key('{')] == Action::MoveParagraphBackward(MoveParagraphBackward())
    &&& m.contains_key(normal_key('}')) && m[normal_key('}')] == Action::MoveParagraphForward(MoveParagraphForward())
    &&& m.contains_key(normal_key('%')) && m[normal_key('%')] == Action::MoveToMatchingBracket(MoveToMatchinBracket())
    &&& m.contains_key(normal_key('i')) && m[normal_key('i')] == Action::SwitchMode(SwitchMode(EditorMode::Insert))
    &&& m.contains_key(normal_key('v')) && m[normal_key('v')] == Action::SwitchMode(SwitchMode(EditorMode::Visual))
    &&& m.contains_key(normal_key('n')) && m[normal_key('n')] == Action::FindNext(FindNext)
    &&& m.contains_key(normal_key('x')) && m[normal_key('x')] == Action::RemoveChar(RemoveChar(1))
    &&& m.contains_key(normal_key('u')) && m[normal_key('u')] == Action::Undo(Undo)
    &&& m.contains_key(normal_key('r')) && m[normal_key('r')] == Action::Redo(Redo)
    &&& m.contains_key(normal_key('.')) && m[normal_key('.')] == Action::RepeatLastChange(RepeatLastChange)
    &&& m.contains_key(normal_key('p')) && m[normal_key('p')] == Action::Paste(Paste)
}

/// Bindings that hold the entries of the Vim-like table bind its plain
/// normal-mode keys as [`vim_plain_keys_bound`] lists them.
pub proof fn lemma_vim_normal_keys(v: Seq<(KeyEventRegister, Action)>)
    requires
        matches_table(v, vim_table()),
    ensures
        vim_plain_keys_bound(to_map(v)),
{
    assert(v.take(v.len() as int) =~= v);
    lemma_vim_plain('h');
    lemma_table_binding_map(v, vim_table(), v.len() as int, normal_key('h'));
    lemma_vim_plain('j');
    lemma_table_binding_map(v, vim_table(), v.len() as int, normal_key('j'));
    lemma_vim_plain('k');
    lemma_table_binding_map(v, vim_table(), v.len() as int, normal_key('k'));
    lemma_vim_plain('l');
    lemma_table_binding_map(v, vim_table(), v.len() as int, normal_key('l'));
    lemma_vim_plain('w');
    lemma_table_binding_map(v, vim_table(), v.len() as int, normal_key('w'));
    lemma_vim_plain('b');
    lemma_table_binding_map(v, vim_table(), v.len() as int, normal_key('b'));
    lemma_vim_plain('e');
    lemma_table_binding_map(v, vim_table(), v.len() as int, normal_key('e'));
    lemma_vim_plain('0');
    lemma_table_binding_map(v, vim_table(), v.len() as int, normal_key('0'));
    lemma_vim_plain('_');
    lemma_table_binding_map(v, vim_table(), v.len() as int, normal_key('_'));
    lemma_vim_plain('$');
    lemma_table_binding_map(v, vim_table(), v.len() as int, normal_key('$'));
    lemma_vim_plain('{');
    lemma_table_binding_map(v, vim_table(), v.len() as int, normal_key('{'));
    lemma_vim_plain('}');
    lemma_table_binding_map(v, vim_table(), v.len() as int, normal_key('}'));
    lemma_vim_plain('%');
    lemma_table_binding_map(v, vim_table(), v.len() as int, normal_key('%'));
    lemma_vim_plain('i');
    lemma_table_binding_map(v, vim_table(), v.len() as int, normal_key('i'));
    lemma_vim_plain('v');
    lemma_table_binding_map(v, vim_table(), v.len() as int, normal_key('v'));
    lemma_vim_plain('n');
    lemma_table_binding_map(v, vim_table(), v.len() as int, normal_key('n'));
    lemma_vim_plain('x');
    lemma_table_binding_map(v, vim_table(), v.len() as int, normal_key('x'));
    lemma_vim_plain('u');
    lemma_table_binding_map(v, vim_table(), v.len() as int, normal_key('u'));
    lemma_vim_plain('r');
    lemma_table_binding_map(v, vim_table(), v.len() as int, normal_key('r'));
    lemma_vim_plain('.');
    lemma_table_binding_map(v, vim_table(), v.len() as int, normal_key('.'));
    lemma_vim_plain('p');
    lemma_table_binding_map(v, vim_table(), v.len() as int, normal_key('p'));
}

/// A key with modifiers pressed in a mode.
pub open spec fn char_key(ch: char, mods: Modifiers, mode: EditorMode) -> (Seq<KeyInput>, EditorMode) {
    (seq![key_input(KeyCode::Char(ch), mods)], mode)
}

proof fn lemma_emacs_0_table_ctrl(ch: char)
    ensures
        table_binding(emacs_0_table(), emacs_0_table().len() as int, char_key(ch, ctrl_modifier(), EditorMode::Insert)) == (if ch == 'p' { Some(Bound::One(Action::MoveUp(MoveUp(1)))) } else { if ch == 'b' { Some(Bound::One(Action::MoveBackward(MoveBackward(1)))) } else { if ch == 'f' { Some(Bound::One(Action::MoveForward(MoveForward(1)))) } else { if ch == 's' { Some(Bound::Chain(seq![Action::StartSearch(StartSearch), Action::SwitchMode(SwitchMode(EditorMode::Search))])) } else { None } } } }),
{
    reveal_with_fuel(table_binding, 13);
    let t = emacs_0_table();
    let k = char_key(ch, ctrl_modifier(), EditorMode::Insert);
    assert(t.len() == 12);
    assert(t[0].0 == char_key('s', ctrl_modifier(), EditorMode::Insert));
    assert(ch != 's' ==> t[0].0.0[0] != k.0[0]);
    assert(t[1].0.1 != k.1);
    assert(t[2].0.1 != k.1);
    assert(t[3].0.1 != k.1);
    assert(t[4].0.1 != k.1);
    assert(t[5].0.1 != k.1);
    assert(t[6].0 == char_key('f', ctrl_modifier(), EditorMode::Insert));
    assert(ch != 'f' ==> t[6].0.0[0] != k.0[0]);
    assert(t[7].0.0[0] != k.0[0]);
    assert(t[8].0 == char_key('b', ctrl_modifier(), EditorMode::Insert));
    assert(ch != 'b' ==> t[8].0.0[0] != k.0[0]);
    assert(t[9].0.0[0] != k.0[0]);
    assert(t[10].0 == char_key('p', ctrl_modifier(), EditorMode::Insert));
    assert(ch != 'p' ==> t[10].0.0[0] != k.0[0]);
    assert(t[11].0.0[0] != k.0[0]);
}

proof fn lemma_emacs_1_table_ctrl(ch: char)
    ensures
        table_binding(emacs_1_table(), emacs_1_table().len() as int, char_key(ch, ctrl_modifier(), EditorMode::Insert)) == (if ch == 'v' { Some(Bound::One(Action::MoveHalfPageDown(MoveHalfPageDown()))) } else { if ch == 'n' { Some(Bound::One(Action::MoveDown(MoveDown(1)))) } else { None } }),
{
    reveal_with_fuel(table_binding, 13);
    let t = emacs_1_table();
    let k = char_key(ch, ctrl_modifier(), EditorMode::Insert);
    assert(t.len() == 12);
    assert(t[0].0 == char_key('n', ctrl_modifier(), EditorMode::Insert));
    assert(ch != 'n' ==> t[0].0.0[0] != k.0[0]);
    assert(t[1].0.0[0] != k.0[0]);
    assert(t[2].0.0[0] != k.0[0]);
    assert(t[3].0.0[0] != k.0[0]);
    assert(t[4].0.0[0] != k.0[0]);
    assert(t[5].0.0[0] != k.0[0]);
    assert(t[6].0 == char_key('v', ctrl_modifier(), EditorMode::Insert));
    assert(ch != 'v' ==> t[6].0.0[0] != k.0[0]);
    assert(t[7].0.0[0] != k.0[0]);
    assert(t[8].0.0[0] != k.0[0]);
    assert(t[9].0.0[0] != k.0[0]);
    assert(t[10].0.0[0] != k.0[0]);
    assert(t[11].0.0[0] != k.0[0]);
}

proof fn lemma_emacs_2_table_ctrl(ch: char)
    ensures
        table_binding(emacs_2_table(), emacs_2_table().len() as int, char_key(ch, ctrl_modifier(), EditorMode::Insert)) == (if ch == 'h' { Some(Bound::One(Action::DeleteChar(DeleteChar(1)))) } else { if ch == 'j' { Some(Bound::One(Action::LineBreak(LineBreak(1)))) } else { if ch == 'o' { Some(Bound::Chain(seq![Action::LineBreak(LineBreak(1)), Action::MoveUp(MoveUp(1)), Action::MoveToEndOfLine(MoveToEndOfLine())])) } else { if ch == 'k' { Some(Bound::One(Action::DeleteToEndOfLine(DeleteToEndOfLine))) } else { if ch == 'e' { Some(Bound::One(Action::MoveToEndOfLine(MoveToEndOfLine()))) } else { if ch == 'a' { Some(Bound::One(Action::MoveToStartOfLine(MoveToStartOfLine()))) } else { None } } } } } }),
{
    reveal_with_fuel(table_binding, 13);
    let t = emacs_2_table();
    let k = char_key(ch, ctrl_modifier(), EditorMode::Insert);
    assert(t.len() == 12);
    assert(t[0].0 == char_key('a', ctrl_modifier(), EditorMode::Insert));
    assert(ch != 'a' ==> t[0].0.0[0] != k.0[0]);
    assert(t[1].0.0[0] != k.0[0]);
    assert(t[2].0.0[0] != k.0[0]);
    assert(t[3].0 == char_key('e', ctrl_modifier(), EditorMode::Insert));
    assert(ch != 'e' ==> t[3].0.0[0] != k.0[0]);
    assert(t[4].0.0[0] != k.0[0]);
    assert(t[5].0 == char_key('k', ctrl_modifier(), EditorMode::Insert));
    assert(ch != 'k' ==> t[5].0.0[0] != k.0[0]);
    assert(t[6].0 == char_key('o', ctrl_modifier(), EditorMode::Insert));
    assert(ch != 'o' ==> t[6].0.0[0] != k.0[0]);
    assert(t[7].0.0[0] != k.0[0]);
    assert(t[8].0 == char_key('j', ctrl_modifier(), EditorMode::Insert));
    assert(ch != 'j' ==> t[8].0.0[0] != k.0[0]);
    assert(t[9].0.0[0] != k.0[0]);
    assert(t[10].0 == char_key('h', ctrl_modifier(), EditorMode::Insert));
    assert(ch != 'h' ==> t[10].0.0[0] != k.0[0]);
    assert(t[11].0.0[0] != k.0[0]);
}

proof fn lemma_emacs_3_table_ctrl(ch: char)
    ensures
        table_binding(emacs_3_table(), emacs_3_table().len() as int, char_key(ch, ctrl_modifier(), EditorMode::Insert)) == (if ch == 'y' { Some(Bound::One(Action::Paste(Paste))) } else { if ch == 'r' { Some(Bound::One(Action::Redo(Redo))) } else { if ch == 'u' { Some(Bound::One(Action::Undo(Undo))) } else { if ch == 'd' { Some(Bound::One(Action::DeleteCharForward(DeleteCharForward(1)))) } else { None } } } }),
{
    reveal_with_fuel(table_binding, 8);
    let t = emacs_3_table();
    let k = char_key(ch, ctrl_modifier(), EditorMode::Insert);
    assert(t.len() == 7);
    assert(t[0].0 == char_key('d', ctrl_modifier(), EditorMode::Insert));
    assert(ch != 'd' ==> t[0].0.0[0] != k.0[0]);
    assert(t[1].0.0[0] != k.0[0]);
    assert(t[2].0.0[0] != k.0[0]);
    assert(t[3].0 == char_key('u', ctrl_modifier(), EditorMode::Insert));
    assert(ch != 'u' ==> t[3].0.0[0] != k.0[0]);
    assert(t[4].0 == char_key('r', ctrl_modifier(), EditorMode::Insert));
    assert(ch != 'r' ==> t[4].0.0[0] != k.0[0]);
    assert(t[5].0 == char_key('y', ctrl_modifier(), EditorMode::Insert));
    assert(ch != 'y' ==> t[5].0.0[0] != k.0[0]);
    assert(t[6].0.0[0] != k.0[0]);
}

spec fn emacs_ctrl(ch: char) -> Option<Bound> {
    if ch == 'y' { Some(Bound::One(Action::Paste(Paste))) } else { if ch == 'r' { Some(Bound::One(Action::Redo(Redo))) } else { if ch == 'u' { Some(Bound::One(Action::Undo(Undo))) } else { if ch == 'd' { Some(Bound::One(Action::DeleteCharForward(DeleteCharForward(1)))) } else { if ch == 'h' { Some(Bound::One(Action::DeleteChar(DeleteChar(1)))) } else { if ch == 'j' { Some(Bound::One(Action::LineBreak(LineBreak(1)))) } else { if ch == 'o' { Some(Bound::Chain(seq![Action::LineBreak(LineBreak(1)), Action::MoveUp(MoveUp(1)), Action::MoveToEndOfLine(MoveToEndOfLine())])) } else { if ch == 'k' { Some(Bound::One(Action::DeleteToEndOfLine(DeleteToEndOfLine))) } else { if ch == 'e' { Some(Bound::One(Action::MoveToEndOfLine(MoveToEndOfLine()))) } else { if ch == 'a' { Some(Bound::One(Action::MoveToStartOfLine(MoveToStartOfLine()))) } else { if ch == 'v' { Some(Bound::One(Action::MoveHalfPageDown(MoveHalfPageDown()))) } else { if ch == 'n' { Some(Bound::One(Action::MoveDown(MoveDown(1)))) } else { if ch == 'p' { Some(Bound::One(Action::MoveUp(MoveUp(1)))) } else { if ch == 'b' { Some(Bound::One(Action::MoveBackward(MoveBackward(1)))) } else { if ch == 'f' { Some(Bound::One(Action::MoveForward(MoveForward(1)))) } else { if ch == 's' { Some(Bound::Chain(seq![Action::StartSearch(StartSearch), Action::SwitchMode(SwitchMode(EditorMode::Search))])) } else { None } } } } } } } } } } } } } } } }
}

proof fn lemma_emacs_ctrl(ch: char)
    ensures
        table_binding(emacs_table(), emacs_table().len() as int, char_key(ch, ctrl_modifier(), EditorMode::Insert)) == emacs_ctrl(ch),
{
    let k = char_key(ch, ctrl_modifier(), EditorMode::Insert);
    lemma_emacs_0_table_ctrl(ch);
    lemma_emacs_1_table_ctrl(ch);
    lemma_table_binding_concat(emacs_0_table(), emacs_1_table(), emacs_1_table().len() as int, k);
    lemma_emacs_2_table_ctrl(ch);
    lemma_table_binding_concat(emacs_0_table() + emacs_1_table(), emacs_2_table(), emacs_2_table().len() as int, k);
    lemma_emacs_3_table_ctrl(ch);
    lemma_table_binding_concat(emacs_0_table() + emacs_1_table() + emacs_2_table(), emacs_3_table(), emacs_3_table().len() as int, k);
}

proof fn lemma_emacs_0_table_alt(ch: char)
    ensures
        table_binding(emacs_0_table(), emacs_0_table().len() as int, char_key(ch, alt_modifier(), EditorMode::Insert)) is None,
{
    reveal_with_fuel(table_binding, 13);
    let t = emacs_0_table();
    let k = char_key(ch, alt_modifier(), EditorMode::Insert);
    assert(t.len() == 12);
    assert(t[0].0.0[0] != k.0[0]);
    assert(t[1].0.1 != k.1);
    assert(t[2].0.1 != k.1);
    assert(t[3].0.1 != k.1);
    assert(t[4].0.1 != k.1);
    assert(t[5].0.1 != k.1);
    assert(t[6].0.0[0] != k.0[0]);
    assert(t[7].0.0[0] != k.0[0]);
    assert(t[8].0.0[0] != k.0[0]);
    assert(t[9].0.0[0] != k.0[0]);
    assert(t[10].0.0[0] != k.0[0]);
    assert(t[11].0.0[0] != k.0[0]);
}

proof fn lemma_emacs_1_table_alt(ch: char)
    ensures
        table_binding(emacs_1_table(), emacs_1_table().len() as int, char_key(ch, alt_modifier(), EditorMode::Insert)) == (if ch == '>' { Some(Bound::One(Action::MoveToLastRow(MoveToLastRow()))) } else { if ch == '<' { Some(Bound::One(Action::MoveToFirstRow(MoveToFirstRow()))) } else { if ch == 'v' { Some(Bound::One(Action::MoveHalfPageUp(MoveHalfPageUp()))) } else { if ch == 'b' { Some(Bound::One(Action::MoveWordBackward(MoveWordBackward(1)))) } else { if ch == 'f' { Some(Bound::One(Action::MoveWordForward(MoveWordForward(1)))) } else { None } } } } }),
{
    reveal_with_fuel(table_binding, 13);
    let t = emacs_1_table();
    let k = char_key(ch, alt_modifier(), EditorMode::Insert);
    assert(t.len() == 12);
    assert(t[0].0.0[0] != k.0[0]);
    assert(t[1].0.0[0] != k.0[0]);
    assert(t[2].0 == char_key('f', alt_modifier(), EditorMode::Insert));
    assert(ch != 'f' ==> t[2].0.0[0] != k.0[0]);
    assert(t[3].0 == char_key('b', alt_modifier(), EditorMode::Insert));
    assert(ch != 'b' ==> t[3].0.0[0] != k.0[0]);
    assert(t[4].0.0[0] != k.0[0]);
    assert(t[5].0.0[0] != k.0[0]);
    assert(t[6].0.0[0] != k.0[0]);
    assert(t[7].0 == char_key('v', alt_modifier(), EditorMode::Insert));
    assert(ch != 'v' ==> t[7].0.0[0] != k.0[0]);
    assert(t[8].0.0[0] != k.0[0]);
    assert(t[9].0.0[0] != k.0[0]);
    assert(t[10].0 == char_key('<', alt_modifier(), EditorMode::Insert));
    assert(ch != '<' ==> t[10].0.0[0] != k.0[0]);
    assert(t[11].0 == char_key('>', alt_modifier(), EditorMode::Insert));
    assert(ch != '>' ==> t[11].0.0[0] != k.0[0]);
}

proof fn lemma_emacs_2_table_alt(ch: char)
    ensures
        table_binding(emacs_2_table(), emacs_2_table().len() as int, char_key(ch, alt_modifier(), EditorMode::Insert)) == (if ch == 'u' { Some(Bound::One(Action::DeleteToFirstCharOfLine(DeleteToFirstCharOfLine))) } else { None }),
{
    reveal_with_fuel(table_binding, 13);
    let t = emacs_2_table();
    let k = char_key(ch, alt_modifier(), EditorMode::Insert);
    assert(t.len() == 12);
    assert(t[0].0.0[0] != k.0[0]);
    assert(t[1].0.0[0] != k.0[0]);
    assert(t[2].0.0[0] != k.0[0]);
    assert(t[3].0.0[0] != k.0[0]);
    assert(t[4].0 == char_key('u', alt_modifier(), EditorMode::Insert));
    assert(ch != 'u' ==> t[4].0.0[0] != k.0[0]);
    assert(t[5].0.0[0] != k.0[0]);
    assert(t[6].0.0[0] != k.0[0]);
    assert(t[7].0.0[0] != k.0[0]);
    assert(t[8].0.0[0] != k.0[0]);
    assert(t[9].0.0[0] != k.0[0]);
    assert(t[10].0.0[0] != k.0[0]);
    assert(t[11].0.0[0] != k.0[0]);
}

proof fn lemma_emacs_3_table_alt(ch: char)
    ensures
        table_binding(emacs_3_table(), emacs_3_table().len() as int, char_key(ch, alt_modifier(), EditorMode::Insert)) == (if ch == 'e' { Some(Bound::One(Action::OpenSystemEditor(OpenSystemEditor))) } else { if ch == 'd' { Some(Bound::One(Action::DeleteWordForward(DeleteWordForward(1)))) } else { None } }),
{
    reveal_with_fuel(table_binding, 8);
    let t = emacs_3_table();
    let k = char_key(ch, alt_modifier(), EditorMode::Insert);
    assert(t.len() == 7);
    assert(t[0].0.0[0] != k.0[0]);
    assert(t[1].0 == char_key('d', alt_modifier(), EditorMode::Insert));
    assert(ch != 'd' ==> t[1].0.0[0] != k.0[0]);
    assert(t[2].0.0[0] != k.0[0]);
    assert(t[3].0.0[0] != k.0[0]);
    assert(t[4].0.0[0] != k.0[0]);
    assert(t[5].0.0[0] != k.0[0]);
    assert(t[6].0 == char_key('e', alt_modifier(), EditorMode::Insert));
    assert(ch != 'e' ==> t[6].0.0[0] != k.0[0]);
}

spec fn emacs_alt(ch: char) -> Option<Bound> {
    if ch == 'e' { Some(Bound::One(Action::OpenSystemEditor(OpenSystemEditor))) } else { if ch == 'd' { Some(Bound::One(Action::DeleteWordForward(DeleteWordForward(1)))) } else { if ch == 'u' { Some(Bound::One(Action::DeleteToFirstCharOfLine(DeleteToFirstCharOfLine))) } else { if ch == '>' { Some(Bound::One(Action::MoveToLastRow(MoveToLastRow()))) } else { if ch == '<' { Some(Bound::One(Action::MoveToFirstRow(MoveToFirstRow()))) } else { if ch == 'v' { Some(Bound::One(Action::MoveHalfPageUp(MoveHalfPageUp()))) } else { if ch == 'b' { Some(Bound::One(Action::MoveWordBackward(MoveWordBackward(1)))) } else { if ch == 'f' { Some(Bound::One(Action::MoveWordForward(MoveWordForward(1)))) } else { None } } } } } } } }
}

proof fn lemma_emacs_alt(ch: char)
    ensures
        table_binding(emacs_table(), emacs_table().len() as int, char_key(ch, alt_modifier(), EditorMode::Insert)) == emacs_alt(ch),
{
    let k = char_key(ch, alt_modifier(), EditorMode::Insert);
    lemma_emacs_0_table_alt(ch);
    lemma_emacs_1_table_alt(ch);
    lemma_table_binding_concat(emacs_0_table(), emacs_1_table(), emacs_1_table().len() as int, k);
    lemma_emacs_2_table_alt(ch);
    lemma_table_binding_concat(emacs_0_table() + emacs_1_table(), emacs_2_table(), emacs_2_table().len() as int, k);
    lemma_emacs_3_table_alt(ch);
    lemma_table_binding_concat(emacs_0_table() + emacs_1_table() + emacs_2_table(), emacs_3_table(), emacs_3_table().len() as int, k);
}

/// The Emacs-like key map binds, in insert mode, the keys its
/// documentation lists: Ctrl+f, Ctrl+b, Ctrl+n, Ctrl+p move forward,
/// backward, down and up; Ctrl+a and Ctrl+e go to the start and end of the
/// line; Ctrl+d and Ctrl+h delete the character forward and backward;
/// Ctrl+k deletes to the end of the line; Ctrl+j breaks the line; Ctrl+y
/// pastes; Ctrl+u undoes and Ctrl+r redoes; Alt+f and Alt+b move by words;
/// Alt+< and Alt+> go to the first and last row; Alt+d deletes the word
/// forward and Alt+u deletes to the start of the line.
pub open spec fn emacs_keys_bound(m: Map<(Seq<KeyInput>, EditorMode), Action>) -> bool {
    &&& m.contains_key(char_key('f', ctrl_modifier(), EditorMode::Insert)) && m[char_key('f', ctrl_modifier(), EditorMode::Insert)] == Action::MoveForward(MoveForward(1))
    &&& m.contains_key(char_key('b', ctrl_modifier(), EditorMode::Insert)) && m[char_key('b', ctrl_modifier(), EditorMode::Insert)] == Action::MoveBackward(MoveBackward(1))
    &&& m.contains_key(char_key('n', ctrl_modifier(), EditorMode::Insert)) && m[char_key('n', ctrl_modifier(), EditorMode::Insert)] == Action::MoveDown(MoveDown(1))
    &&& m.contains_key(char_key('p', ctrl_modifier(), EditorMode::Insert)) && m[char_key('p', ctrl_modifier(), EditorMode::Insert)] == Action::MoveUp(MoveUp(1))
    &&& m.contains_key(char_key('a', ctrl_modifier(), EditorMode::Insert)) && m[char_key('a', ctrl_modifier(), EditorMode::Insert)] == Action::MoveToStartOfLine(MoveToStartOfLine())
    &&& m.contains_key(char_key('e', ctrl_modifier(), EditorMode::Insert)) && m[char_key('e', ctrl_modifier(), EditorMode::Insert)] == Action::MoveToEndOfLine(MoveToEndOfLine())
    &&& m.contains_key(char_key('d', ctrl_modifier(), EditorMode::Insert)) && m[char_key('d', ctrl_modifier(), EditorMode::Insert)] == Action::DeleteCharForward(DeleteCharForward(1))
    &&& m.contains_key(char_key('h', ctrl_modifier(), EditorMode::Insert)) && m[char_key('h', ctrl_modifier(), EditorMode::Insert)] == Action::DeleteChar(DeleteChar(1))
    &&& m.contains_key(char_key('k', ctrl_modifier(), EditorMode::Insert)) && m[char_key('k', ctrl_modifier(), EditorMode::Insert)] == Action::DeleteToEndOfLine(DeleteToEndOfLine)
    &&& m.contains_key(char_key('j', ctrl_modifier(), EditorMode::Insert)) && m[char_key('j', ctrl_modifier(), EditorMode::Insert)] == Action::LineBreak(LineBreak(1))
    &&& m.contains_key(char_key('y', ctrl_modifier(), EditorMode::Insert)) && m[char_key('y', ctrl_modifier(), EditorMode::Insert)] == Action::Paste(Paste)
    &&& m.contains_key(char_key('u', ctrl_modifier(), EditorMode::Insert)) && m[char_key('u', ctrl_modifier(), EditorMode::Insert)] == Action::Undo(Undo)
    &&& m.contains_key(char_key('r', ctrl_modifier(), EditorMode::Insert)) && m[char_key('r', ctrl_modifier(), EditorMode::Insert)] == Action::Redo(Redo)
    &&& m.contains_key(char_key('f', alt_modifier(), EditorMode::Insert)) && m[char_key('f', alt_modifier(), EditorMode::Insert)] == Action::MoveWordForward(MoveWordForward(1))
    &&& m.contains_key(char_key('b', alt_modifier(), EditorMode::Insert)) && m[char_key('b', alt_modifier(), EditorMode::Insert)] == Action::MoveWordBackward(MoveWordBackward(1))
    &&& m.contains_key(char_key('<', alt_modifier(), EditorMode::Insert)) && m[char_key('<', alt_modifier(), EditorMode::Insert)] == Action::MoveToFirstRow(MoveToFirstRow())
    &&& m.contains_key(char_key('>', alt_modifier(), EditorMode::Insert)) && m[char_key('>', alt_modifier(), EditorMode::Insert)] == Action::MoveToLastRow(MoveToLastRow())
    &&& m.contains_key(char_key('d', alt_modifier(), EditorMode::Insert)) && m[char_key('d', alt_modifier(), EditorMode::Insert)] == Action::DeleteWordForward(DeleteWordForward(1))
    &&& m.contains_key(char_key('u', alt_modifier(), EditorMode::Insert)) && m[char_key('u', alt_modifier(), EditorMode::Insert)] == Action::DeleteToFirstCharOfLine(DeleteToFirstCharOfLine)
}

/// Bindings that hold the entries of the Emacs-like table bind its keys as
/// [`emacs_keys_bound`] lists them.
pub proof fn lemma_emacs_keys(v: Seq<(KeyEventRegister, Action)>)
    requires
        matches_table(v, emacs_table()),
    ensures
        emacs_keys_bound(to_map(v)),
{
    assert(v.take(v.len() as int) =~= v);
    lemma_emacs_ctrl('f');
    lemma_table_binding_map(v, emacs_table(), v.len() as int, char_key('f', ctrl_modifier(), EditorMode::Insert));
    lemma_emacs_ctrl('b');
    lemma_table_binding_map(v, emacs_table(), v.len() as int, char_key('b', ctrl_modifier(), EditorMode::Insert));
    lemma_emacs_ctrl('n');
    lemma_table_binding_map(v, emacs_table(), v.len() as int, char_key('n', ctrl_modifier(), EditorMode::Insert));
    lemma_emacs_ctrl('p');
    lemma_table_binding_map(v, emacs_table(), v.len() as int, char_key('p', ctrl_modifier(), EditorMode::Insert));
    lemma_emacs_ctrl('a');
    lemma_table_binding_map(v, emacs_table(), v.len() as int, char_key('a', ctrl_modifier(), EditorMode::Insert));
    lemma_emacs_ctrl('e');
    lemma_table_binding_map(v, emacs_table(), v.len() as int, char_key('e', ctrl_modifier(), EditorMode::Insert));
    lemma_emacs_ctrl('d');
    lemma_table_binding_map(v, emacs_table(), v.len() as int, char_key('d', ctrl_modifier(), EditorMode::Insert));
    lemma_emacs_ctrl('h');
    lemma_table_binding_map(v, emacs_table(), v.len() as int, char_key('h', ctrl_modifier(), EditorMode::Insert));
    lemma_emacs_ctrl('k');
    lemma_table_binding_map(v, emacs_table(), v.len() as int, char_key('k', ctrl_modifier(), EditorMode::Insert));
    lemma_emacs_ctrl('j');
    lemma_table_binding_map(v, emacs_table(), v.len() as int, char_key('j', ctrl_modifier(), EditorMode::Insert));
    lemma_emacs_ctrl('y');
    lemma_table_binding_map(v, emacs_table(), v.len() as int, char_key('y', ctrl_modifier(), EditorMode::Insert));
    lemma_emacs_ctrl('u');
    lemma_table_binding_map(v, emacs_table(), v.len() as int, char_key('u', ctrl_modifier(), EditorMode::Insert));
    lemma_emacs_ctrl('r');
    lemma_table_binding_map(v, emacs_table(), v.len() as int, char_key('r', ctrl_modifier(), EditorMode::Insert));
    lemma_emacs_alt('f');
    lemma_table_binding_map(v, emacs_table(), v.len() as int, char_key('f', alt_modifier(), EditorMode::Insert));
    lemma_emacs_alt('b');
    lemma_table_binding_map(v, emacs_table(), v.len() as int, char_key('b', alt_modifier(), EditorMode::Insert));
    lemma_emacs_alt('<');
    lemma_table_binding_map(v, emacs_table(), v.len() as int, char_key('<', alt_modifier(), EditorMode::Insert));
    lemma_emacs_alt('>');
    lemma_table_binding_map(v, emacs_table(), v.len() as int, char_key('>', alt_modifier(), EditorMode::Insert));
    lemma_emacs_alt('d');
    lemma_table_binding_map(v, emacs_table(), v.len() as int, char_key('d', alt_modifier(), EditorMode::Insert));
    lemma_emacs_alt('u');
    lemma_table_binding_map(v, emacs_table(), v.len() as int, char_key('u', alt_modifier(), EditorMode::Insert));
}

/// Two plain keys pressed one after the other in normal mode.
pub open spec fn pair_key(c1: char, c2: char) -> (Seq<KeyInput>, EditorMode) {
    (seq![key_input(KeyCode::Char(c1), no_modifiers()), key_input(KeyCode::Char(c2), no_modifiers())], EditorMode::Normal)
}

proof fn lemma_vim_0_table_shift(ch: char)
    ensures
        table_binding(vim_0_table(), vim_0_table().len() as int, char_key(ch, shift_modifier(), EditorMode::Normal)) == (if ch == 'N' { Some(Bound::One(Action::FindPrevious(FindPrevious))) } else { None }),
{
    reveal_with_fuel(table_binding, 13);
    let t = vim_0_table();
    let k = char_key(ch, shift_modifier(), EditorMode::Normal);
    assert(t.len() == 12);
    assert(t[0].0.1 != k.1);
    assert(t[1].0.1 != k.1);
    assert(t[2].0.0[0] != k.0[0]);
    assert(t[3].0.0[0] != k.0[0]);
    assert(t[4].0.0[0] != k.0[0]);
    assert(t[5].0.1 != k.1);
    assert(t[6].0.0[0] != k.0[0]);
    assert(t[7].0 == char_key('N', shift_modifier(), EditorMode::Normal));
    assert(!(ch == 'N') ==> t[7].0.0[0] != k.0[0]);
    assert(t[8].0.1 != k.1);
    assert(t[9].0.1 != k.1);
    assert(t[10].0.0[0] != k.0[0]);
    assert(t[11].0.0[0] != k.0[0]);
}

proof fn lemma_vim_1_table_shift(ch: char)
    ensures
        table_binding(vim_1_table(), vim_1_table().len() as int, char_key(ch, shift_modifier(), EditorMode::Normal)) is None,
{
    reveal_with_fuel(table_binding, 13);
    let t = vim_1_table();
    let k = char_key(ch, shift_modifier(), EditorMode::Normal);
    assert(t.len() == 12);
    assert(t[0].0.1 != k.1);
    assert(t[1].0.0[0] != k.0[0]);
    assert(t[2].0.1 != k.1);
    assert(t[3].0.1 != k.1);
    assert(t[4].0.0[0] != k.0[0]);
    assert(t[5].0.1 != k.1);
    assert(t[6].0.0[0] != k.0[0]);
    assert(t[7].0.1 != k.1);
    assert(t[8].0.1 != k.1);
    assert(t[9].0.1 != k.1);
    assert(t[10].0.1 != k.1);
    assert(t[11].0.0[0] != k.0[0]);
}

proof fn lemma_vim_2_table_shift(ch: char)
    ensures
        table_binding(vim_2_table(), vim_2_table().len() as int, char_key(ch, shift_modifier(), EditorMode::Normal)) is None,
{
    reveal_with_fuel(table_binding, 13);
    let t = vim_2_table();
    let k = char_key(ch, shift_modifier(), EditorMode::Normal);
    assert(t.len() == 12);
    assert(t[0].0.1 != k.1);
    assert(t[1].0.0[0] != k.0[0]);
    assert(t[2].0.1 != k.1);
    assert(t[3].0.1 != k.1);
    assert(t[4].0.0[0] != k.0[0]);
    assert(t[5].0.1 != k.1);
    assert(t[6].0.0[0] != k.0[0]);
    assert(t[7].0.1 != k.1);
    assert(t[8].0.1 != k.1);
    assert(t[9].0.0[0] != k.0[0]);
    assert(t[10].0.1 != k.1);
    assert(t[11].0.0[0] != k.0[0]);
}

proof fn lemma_vim_3_table_shift(ch: char)
    ensures
        table_binding(vim_3_table(), vim_3_table().len() as int, char_key(ch, shift_modifier(), EditorMode::Normal)) is None,
{
    reveal_with_fuel(table_binding, 13);
    let t = vim_3_table();
    let k = char_key(ch, shift_modifier(), EditorMode::Normal);
    assert(t.len() == 12);
    assert(t[0].0.1 != k.1);
    assert(t[1].0.0[0] != k.0[0]);
    assert(t[2].0.1 != k.1);
    assert(t[3].0.0[0] != k.0[0]);
    assert(t[4].0.0[0] != k.0[0]);
    assert(t[5].0.0[0] != k.0[0]);
    assert(t[6].0.1 != k.1);
    assert(t[7].0.1 != k.1);
    assert(t[8].0.1 != k.1);
    assert(t[9].0.0[0] != k.0[0]);
    assert(t[10].0.1 != k.1);
    assert(t[11].0.0[0] != k.0[0]);
}

proof fn lemma_vim_4_table_shift(ch: char)
    ensures
        table_binding(vim_4_table(), vim_4_table().len() as int, char_key(ch, shift_modifier(), EditorMode::Normal)) is None,
{
    reveal_with_fuel(table_binding, 13);
    let t = vim_4_table();
    let k = char_key(ch, shift_modifier(), EditorMode::Normal);
    assert(t.len() == 12);
    assert(t[0].0.1 != k.1);
    assert(t[1].0.0[0] != k.0[0]);
    assert(t[2].0.1 != k.1);
    assert(t[3].0.1 != k.1);
    assert(t[4].0.0[0] != k.0[0]);
    assert(t[5].0.1 != k.1);
    assert(t[6].0.1 != k.1);
    assert(t[7].0.1 != k.1);
    assert(t[8].0.0[0] != k.0[0]);
    assert(t[9].0.1 != k.1);
    assert(t[10].0.1 != k.1);
    assert(t[11].0.0[0] != k.0[0]);
}

proof fn lemma_vim_5_table_shift(ch: char)
    ensures
        table_binding(vim_5_table(), vim_5_table().len() as int, char_key(ch, shift_modifier(), EditorMode::Normal)) == (if ch == 'G' { Some(Bound::One(Action::MoveToLastRow(MoveToLastRow()))) } else { if ch == 'A' { Some(Bound::Chain(seq![Action::SwitchMode(SwitchMode(EditorMode::Insert)), Action::MoveToEndOfLine(MoveToEndOfLine()), Action::MoveForward(MoveForward(1))])) } else { if ch == 'I' { Some(Bound::Chain(seq![Action::SwitchMode(SwitchMode(EditorMode::Insert)), Action::MoveToFirst(MoveToFirst())])) } else { None } } }),
{
    reveal_with_fuel(table_binding, 13);
    let t = vim_5_table();
    let k = char_key(ch, shift_modifier(), EditorMode::Normal);
    assert(t.len() == 12);
    assert(t[0].0.1 != k.1);
    assert(t[1].0.1 != k.1);
    assert(t[2].0 == char_key('I', shift_modifier(), EditorMode::Normal));
    assert(!(ch == 'I') ==> t[2].0.0[0] != k.0[0]);
    assert(t[3].0 == char_key('A', shift_modifier(), EditorMode::Normal));
    assert(!(ch == 'A') ==> t[3].0.0[0] != k.0[0]);
    assert(t[4].0.0.len() != k.0.len());
    assert(t[5].0.1 != k.1);
    assert(t[6].0 == char_key('G', shift_modifier(), EditorMode::Normal));
    assert(!(ch == 'G') ==> t[6].0.0[0] != k.0[0]);
    assert(t[7].0.1 != k.1);
    assert(t[8].0.0[0] != k.0[0]);
    assert(t[9].0.1 != k.1);
    assert(t[10].0.0[0] != k.0[0]);
    assert(t[11].0.1 != k.1);
}

proof fn lemma_vim_6_table_shift(ch: char)
    ensures
        table_binding(vim_6_table(), vim_6_table().len() as int, char_key(ch, shift_modifier(), EditorMode::Normal)) == (if ch == 'O' { Some(Bound::Chain(seq![Action::SwitchMode(SwitchMode(EditorMode::Insert)), Action::InsertNewline(InsertNewline(1))])) } else { None }),
{
    reveal_with_fuel(table_binding, 13);
    let t = vim_6_table();
    let k = char_key(ch, shift_modifier(), EditorMode::Normal);
    assert(t.len() == 12);
    assert(t[0].0.0[0] != k.0[0]);
    assert(t[1].0.1 != k.1);
    assert(t[2].0.0[0] != k.0[0]);
    assert(t[3].0 == char_key('O', shift_modifier(), EditorMode::Normal));
    assert(!(ch == 'O') ==> t[3].0.0[0] != k.0[0]);
    assert(t[4].0.1 != k.1);
    assert(t[5].0.0[0] != k.0[0]);
    assert(t[6].0.0[0] != k.0[0]);
    assert(t[7].0.1 != k.1);
    assert(t[8].0.1 != k.1);
    assert(t[9].0.0.len() != k.0.len());
    assert(t[10].0.0.len() != k.0.len());
    assert(t[11].0.0.len() != k.0.len());
}

proof fn lemma_vim_7_table_shift(ch: char)
    ensures
        table_binding(vim_7_table(), vim_7_table().len() as int, char_key(ch, shift_modifier(), EditorMode::Normal)) == (if ch == 'J' { Some(Bound::One(Action::JoinLineWithLineBelow(JoinLineWithLineBelow))) } else { if ch == 'D' { Some(Bound::One(Action::DeleteToEndOfLine(DeleteToEndOfLine))) } else { None } }),
{
    reveal_with_fuel(table_binding, 13);
    let t = vim_7_table();
    let k = char_key(ch, shift_modifier(), EditorMode::Normal);
    assert(t.len() == 12);
    assert(t[0].0.0.len() != k.0.len());
    assert(t[1].0.0.len() != k.0.len());
    assert(t[2].0 == char_key('D', shift_modifier(), EditorMode::Normal));
    assert(!(ch == 'D') ==> t[2].0.0[0] != k.0[0]);
    assert(t[3].0.1 != k.1);
    assert(t[4].0 == char_key('J', shift_modifier(), EditorMode::Normal));
    assert(!(ch == 'J') ==> t[4].0.0[0] != k.0[0]);
    assert(t[5].0.1 != k.1);
    assert(t[6].0.1 != k.1);
    assert(t[7].0.1 != k.1);
    assert(t[8].0.1 != k.1);
    assert(t[9].0.1 != k.1);
    assert(t[10].0.1 != k.1);
    assert(t[11].0.1 != k.1);
}

proof fn lemma_vim_8_table_shift(ch: char)
    ensures
        table_binding(vim_8_table(), vim_8_table().len() as int, char_key(ch, shift_modifier(), EditorMode::Normal)) is None,
{
    reveal_with_fuel(table_binding, 13);
    let t = vim_8_table();
    let k = char_key(ch, shift_modifier(), EditorMode::Normal);
    assert(t.len() == 12);
    assert(t[0].0.1 != k.1);
    assert(t[1].0.1 != k.1);
    assert(t[2].0.0.len() != k.0.len());
    assert(t[3].0.0.len() != k.0.len());
    assert(t[4].0.0.len() != k.0.len());
    assert(t[5].0.0.len() != k.0.len());
    assert(t[6].0.0.len() != k.0.len());
    assert(t[7].0.0.len() != k.0.len());
    assert(t[8].0.0.len() != k.0.len());
    assert(t[9].0.0.len() != k.0.len());
    assert(t[10].0.0.len() != k.0.len());
    assert(t[11].0.0.len() != k.0.len());
}

proof fn lemma_vim_9_table_shift(ch: char)
    ensures
        table_binding(vim_9_table(), vim_9_table().len() as int, char_key(ch, shift_modifier(), EditorMode::Normal)) is None,
{
    reveal_with_fuel(table_binding, 13);
    let t = vim_9_table();
    let k = char_key(ch, shift_modifier(), EditorMode::Normal);
    assert(t.len() == 12);
    assert(t[0].0.0.len() != k.0.len());
    assert(t[1].0.0.len() != k.0.len());
    assert(t[2].0.0.len() != k.0.len());
    assert(t[3].0.0.len() != k.0.len());
    assert(t[4].0.0.len() != k.0.len());
    assert(t[5].0.0.len() != k.0.len());
    assert(t[6].0.0.len() != k.0.len());
    assert(t[7].0.0.len() != k.0.len());
    assert(t[8].0.0.len() != k.0.len());
    assert(t[9].0.0.len() != k.0.len());
    assert(t[10].0.1 != k.1);
    assert(t[11].0.1 != k.1);
}

proof fn lemma_vim_10_table_shift(ch: char)
    ensures
        table_binding(vim_10_table(), vim_10_table().len() as int, char_key(ch, shift_modifier(), EditorMode::Normal)) == (if ch == 'V' { Some(Bound::One(Action::SelectLine(SelectLine))) } else { None }),
{
    reveal_with_fuel(table_binding, 11);
    let t = vim_10_table();
    let k = char_key(ch, shift_modifier(), EditorMode::Normal);
    assert(t.len() == 10);
    assert(t[0].0 == char_key('V', shift_modifier(), EditorMode::Normal));
    assert(!(ch == 'V') ==> t[0].0.0[0] != k.0[0]);
    assert(t[1].0.0[0] != k.0[0]);
    assert(t[2].0.0[0] != k.0[0]);
    assert(t[3].0.0[0] != k.0[0]);
    assert(t[4].0.0[0] != k.0[0]);
    assert(t[5].0.1 != k.1);
    assert(t[6].0.0.len() != k.0.len());
    assert(t[7].0.0[0] != k.0[0]);
    assert(t[8].0.1 != k.1);
    assert(t[9].0.0[0] != k.0[0]);
}

spec fn vim_shift(ch: char) -> Option<Bound> {
    if ch == 'V' { Some(Bound::One(Action::SelectLine(SelectLine))) } else { if ch == 'J' { Some(Bound::One(Action::JoinLineWithLineBelow(JoinLineWithLineBelow))) } else { if ch == 'D' { Some(Bound::One(Action::DeleteToEndOfLine(DeleteToEndOfLine))) } else { if ch == 'O' { Some(Bound::Chain(seq![Action::SwitchMode(SwitchMode(EditorMode::Insert)), Action::InsertNewline(InsertNewline(1))])) } else { if ch == 'G' { Some(Bound::One(Action::MoveToLastRow(MoveToLastRow()))) } else { if ch == 'A' { Some(Bound::Chain(seq![Action::SwitchMode(SwitchMode(EditorMode::Insert)), Action::MoveToEndOfLine(MoveToEndOfLine()), Action::MoveForward(MoveForward(1))])) } else { if ch == 'I' { Some(Bound::Chain(seq![Action::SwitchMode(SwitchMode(EditorMode::Insert)), Action::MoveToFirst(MoveToFirst())])) } else { if ch == 'N' { Some(Bound::One(Action::FindPrevious(FindPrevious))) } else { None } } } } } } } }
}

proof fn lemma_vim_shift(ch: char)
    ensures
        table_binding(vim_table(), vim_table().len() as int, char_key(ch, shift_modifier(), EditorMode::Normal)) == vim_shift(ch),
{
    let k = char_key(ch, shift_modifier(), EditorMode::Normal);
    lemma_vim_0_table_shift(ch);
    lemma_vim_1_table_shift(ch);
    lemma_table_binding_concat(vim_0_table(), vim_1_table(), vim_1_table().len() as int, k);
    lemma_vim_2_table_shift(ch);
    lemma_table_binding_concat(vim_0_table() + vim_1_table(), vim_2_table(), vim_2_table().len() as int, k);
    lemma_vim_3_table_shift(ch);
    lemma_table_binding_concat(vim_0_table() + vim_1_table() + vim_2_table(), vim_3_table(), vim_3_table().len() as int, k);
    lemma_vim_4_table_shift(ch);
    lemma_table_binding_concat(vim_0_table() + vim_1_table() + vim_2_table() + vim_3_table(), vim_4_table(), vim_4_table().len() as int, k);
    lemma_vim_5_table_shift(ch);
    lemma_table_binding_concat(vim_0_table() + vim_1_table() + vim_2_table() + vim_3_table() + vim_4_table(), vim_5_table(), vim_5_table().len() as int, k);
    lemma_vim_6_table_shift(ch);
    lemma_table_binding_concat(vim_0_table() + vim_1_table() + vim_2_table() + vim_3_table() + vim_4_table() + vim_5_table(), vim_6_table(), vim_6_table().len() as int, k);
    lemma_vim_7_table_shift(ch);
    lemma_table_binding_concat(vim_0_table() + vim_1_table() + vim_2_table() + vim_3_table() + vim_4_table() + vim_5_table() + vim_6_table(), vim_7_table(), vim_7_table().len() as int, k);
    lemma_vim_8_table_shift(ch);
    lemma_table_binding_concat(vim_0_table() + vim_1_table() + vim_2_table() + vim_3_table() + vim_4_table() + vim_5_table() + vim_6_table() + vim_7_table(), vim_8_table(), vim_8_table().len() as int, k);
    lemma_vim_9_table_shift(ch);
    lemma_table_binding_concat(vim_0_table() + vim_1_table() + vim_2_table() + vim_3_table() + vim_4_table() + vim_5_table() + vim_6_table() + vim_7_table() + vim_8_table(), vim_9_table(), vim_9_table().len() as int, k);
    lemma_vim_10_table_shift(ch);
    lemma_table_binding_concat(vim_0_table() + vim_1_table() + vim_2_table() + vim_3_table() + vim_4_table() + vim_5_table() + vim_6_table() + vim_7_table() + vim_8_table() + vim_9_table(), vim_10_table(), vim_10_table().len() as int, k);
}

proof fn lemma_vim_0_table_ctrl(ch: char)
    ensures
        table_binding(vim_0_table(), vim_0_table().len() as int, char_key(ch, ctrl_modifier(), EditorMode::Normal)) is None,
{
    reveal_with_fuel(table_binding, 13);
    let t = vim_0_table();
    let k = char_key(ch, ctrl_modifier(), EditorMode::Normal);
    assert(t.len() == 12);
    assert(t[0].0.1 != k.1);
    assert(t[1].0.1 != k.1);
    assert(t[2].0.0[0] != k.0[0]);
    assert(t[3].0.0[0] != k.0[0]);
    assert(t[4].0.0[0] != k.0[0]);
    assert(t[5].0.1 != k.1);
    assert(t[6].0.0[0] != k.0[0]);
    assert(t[7].0.0[0] != k.0[0]);
    assert(t[8].0.1 != k.1);
    assert(t[9].0.1 != k.1);
    assert(t[10].0.0[0] != k.0[0]);
    assert(t[11].0.0[0] != k.0[0]);
}

proof fn lemma_vim_1_table_ctrl(ch: char)
    ensures
        table_binding(vim_1_table(), vim_1_table().len() as int, char_key(ch, ctrl_modifier(), EditorMode::Normal)) is None,
{
    reveal_with_fuel(table_binding, 13);
    let t = vim_1_table();
    let k = char_key(ch, ctrl_modifier(), EditorMode::Normal);
    assert(t.len() == 12);
    assert(t[0].0.1 != k.1);
    assert(t[1].0.0[0] != k.0[0]);
    assert(t[2].0.1 != k.1);
    assert(t[3].0.1 != k.1);
    assert(t[4].0.0[0] != k.0[0]);
    assert(t[5].0.1 != k.1);
    assert(t[6].0.0[0] != k.0[0]);
    assert(t[7].0.1 != k.1);
    assert(t[8].0.1 != k.1);
    assert(t[9].0.1 != k.1);
    assert(t[10].0.1 != k.1);
    assert(t[11].0.0[0] != k.0[0]);
}

proof fn lemma_vim_2_table_ctrl(ch: char)
    ensures
        table_binding(vim_2_table(), vim_2_table().len() as int, char_key(ch, ctrl_modifier(), EditorMode::Normal)) is None,
{
    reveal_with_fuel(table_binding, 13);
    let t = vim_2_table();
    let k = char_key(ch, ctrl_modifier(), EditorMode::Normal);
    assert(t.len() == 12);
    assert(t[0].0.1 != k.1);
    assert(t[1].0.0[0] != k.0[0]);
    assert(t[2].0.1 != k.1);
    assert(t[3].0.1 != k.1);
    assert(t[4].0.0[0] != k.0[0]);
    assert(t[5].0.1 != k.1);
    assert(t[6].0.0[0] != k.0[0]);
    assert(t[7].0.1 != k.1);
    assert(t[8].0.1 != k.1);
    assert(t[9].0.0[0] != k.0[0]);
    assert(t[10].0.1 != k.1);
    assert(t[11].0.0[0] != k.0[0]);
}

proof fn lemma_vim_3_table_ctrl(ch: char)
    ensures
        table_binding(vim_3_table(), vim_3_table().len() as int, char_key(ch, ctrl_modifier(), EditorMode::Normal)) == (if ch == 'u' { Some(Bound::One(Action::MoveHalfPageUp(MoveHalfPageUp()))) } else { if ch == 'd' { Some(Bound::One(Action::MoveHalfPageDown(MoveHalfPageDown()))) } else { None } }),
{
    reveal_with_fuel(table_binding, 13);
    let t = vim_3_table();
    let k = char_key(ch, ctrl_modifier(), EditorMode::Normal);
    assert(t.len() == 12);
    assert(t[0].0.1 != k.1);
    assert(t[1].0.0[0] != k.0[0]);
    assert(t[2].0.1 != k.1);
    assert(t[3].0.0[0] != k.0[0]);
    assert(t[4].0.0[0] != k.0[0]);
    assert(t[5].0.0[0] != k.0[0]);
    assert(t[6].0.1 != k.1);
    assert(t[7].0.1 != k.1);
    assert(t[8].0.1 != k.1);
    assert(t[9].0 == char_key('d', ctrl_modifier(), EditorMode::Normal));
    assert(!(ch == 'd') ==> t[9].0.0[0] != k.0[0]);
    assert(t[10].0.1 != k.1);
    assert(t[11].0 == char_key('u', ctrl_modifier(), EditorMode::Normal));
    assert(!(ch == 'u') ==> t[11].0.0[0] != k.0[0]);
}

proof fn lemma_vim_4_table_ctrl(ch: char)
    ensures
        table_binding(vim_4_table(), vim_4_table().len() as int, char_key(ch, ctrl_modifier(), EditorMode::Normal)) is None,
{
    reveal_with_fuel(table_binding, 13);
    let t = vim_4_table();
    let k = char_key(ch, ctrl_modifier(), EditorMode::Normal);
    assert(t.len() == 12);
    assert(t[0].0.1 != k.1);
    assert(t[1].0.0[0] != k.0[0]);
    assert(t[2].0.1 != k.1);
    assert(t[3].0.1 != k.1);
    assert(t[4].0.0[0] != k.0[0]);
    assert(t[5].0.1 != k.1);
    assert(t[6].0.1 != k.1);
    assert(t[7].0.1 != k.1);
    assert(t[8].0.0[0] != k.0[0]);
    assert(t[9].0.1 != k.1);
    assert(t[10].0.1 != k.1);
    assert(t[11].0.0[0] != k.0[0]);
}

proof fn lemma_vim_5_table_ctrl(ch: char)
    ensures
        table_binding(vim_5_table(), vim_5_table().len() as int, char_key(ch, ctrl_modifier(), EditorMode::Normal)) is None,
{
    reveal_with_fuel(table_binding, 13);
    let t = vim_5_table();
    let k = char_key(ch, ctrl_modifier(), EditorMode::Normal);
    assert(t.len() == 12);
    assert(t[0].0.1 != k.1);
    assert(t[1].0.1 != k.1);
    assert(t[2].0.0[0] != k.0[0]);
    assert(t[3].0.0[0] != k.0[0]);
    assert(t[4].0.0.len() != k.0.len());
    assert(t[5].0.1 != k.1);
    assert(t[6].0.0[0] != k.0[0]);
    assert(t[7].0.1 != k.1);
    assert(t[8].0.0[0] != k.0[0]);
    assert(t[9].0.1 != k.1);
    assert(t[10].0.0[0] != k.0[0]);
    assert(t[11].0.1 != k.1);
}

proof fn lemma_vim_6_table_ctrl(ch: char)
    ensures
        table_binding(vim_6_table(), vim_6_table().len() as int, char_key(ch, ctrl_modifier(), EditorMode::Normal)) is None,
{
    reveal_with_fuel(table_binding, 13);
    let t = vim_6_table();
    let k = char_key(ch, ctrl_modifier(), EditorMode::Normal);
    assert(t.len() == 12);
    assert(t[0].0.0[0] != k.0[0]);
    assert(t[1].0.1 != k.1);
    assert(t[2].0.0[0] != k.0[0]);
    assert(t[3].0.0[0] != k.0[0]);
    assert(t[4].0.1 != k.1);
    assert(t[5].0.0[0] != k.0[0]);
    assert(t[6].0.0[0] != k.0[0]);
    assert(t[7].0.1 != k.1);
    assert(t[8].0.1 != k.1);
    assert(t[9].0.0.len() != k.0.len());
    assert(t[10].0.0.len() != k.0.len());
    assert(t[11].0.0.len() != k.0.len());
}

proof fn lemma_vim_7_table_ctrl(ch: char)
    ensures
        table_binding(vim_7_table(), vim_7_table().len() as int, char_key(ch, ctrl_modifier(), EditorMode::Normal)) is None,
{
    reveal_with_fuel(table_binding, 13);
    let t = vim_7_table();
    let k = char_key(ch, ctrl_modifier(), EditorMode::Normal);
    assert(t.len() == 12);
    assert(t[0].0.0.len() != k.0.len());
    assert(t[1].0.0.len() != k.0.len());
    assert(t[2].0.0[0] != k.0[0]);
    assert(t[3].0.1 != k.1);
    assert(t[4].0.0[0] != k.0[0]);
    assert(t[5].0.1 != k.1);
    assert(t[6].0.1 != k.1);
    assert(t[7].0.1 != k.1);
    assert(t[8].0.1 != k.1);
    assert(t[9].0.1 != k.1);
    assert(t[10].0.1 != k.1);
    assert(t[11].0.1 != k.1);
}

proof fn lemma_vim_8_table_ctrl(ch: char)
    ensures
        table_binding(vim_8_table(), vim_8_table().len() as int, char_key(ch, ctrl_modifier(), EditorMode::Normal)) is None,
{
    reveal_with_fuel(table_binding, 13);
    let t = vim_8_table();
    let k = char_key(ch, ctrl_modifier(), EditorMode::Normal);
    assert(t.len() == 12);
    assert(t[0].0.1 != k.1);
    assert(t[1].0.1 != k.1);
    assert(t[2].0.0.len() != k.0.len());
    assert(t[3].0.0.len() != k.0.len());
    assert(t[4].0.0.len() != k.0.len());
    assert(t[5].0.0.len() != k.0.len());
    assert(t[6].0.0.len() != k.0.len());
    assert(t[7].0.0.len() != k.0.len());
    assert(t[8].0.0.len() != k.0.len());
    assert(t[9].0.0.len() != k.0.len());
    assert(t[10].0.0.len() != k.0.len());
    assert(t[11].0.0.len() != k.0.len());
}

proof fn lemma_vim_9_table_ctrl(ch: char)
    ensures
        table_binding(vim_9_table(), vim_9_table().len() as int, char_key(ch, ctrl_modifier(), EditorMode::Normal)) is None,
{
    reveal_with_fuel(table_binding, 13);
    let t = vim_9_table();
    let k = char_key(ch, ctrl_modifier(), EditorMode::Normal);
    assert(t.len() == 12);
    assert(t[0].0.0.len() != k.0.len());
    assert(t[1].0.0.len() != k.0.len());
    assert(t[2].0.0.len() != k.0.len());
    assert(t[3].0.0.len() != k.0.len());
    assert(t[4].0.0.len() != k.0.len());
    assert(t[5].0.0.len() != k.0.len());
    assert(t[6].0.0.len() != k.0.len());
    assert(t[7].0.0.len() != k.0.len());
    assert(t[8].0.0.len() != k.0.len());
    assert(t[9].0.0.len() != k.0.len());
    assert(t[10].0.1 != k.1);
    assert(t[11].0.1 != k.1);
}

proof fn lemma_vim_10_table_ctrl(ch: char)
    ensures
        table_binding(vim_10_table(), vim_10_table().len() as int, char_key(ch, ctrl_modifier(), EditorMode::Normal)) == (if ch == 'e' { Some(Bound::One(Action::OpenSystemEditor(OpenSystemEditor))) } else { if ch == 'r' { Some(Bound::One(Action::Redo(Redo))) } else { None } }),
{
    reveal_with_fuel(table_binding, 11);
    let t = vim_10_table();
    let k = char_key(ch, ctrl_modifier(), EditorMode::Normal);
    assert(t.len() == 10);
    assert(t[0].0.0[0] != k.0[0]);
    assert(t[1].0.0[0] != k.0[0]);
    assert(t[2].0 == char_key('r', ctrl_modifier(), EditorMode::Normal));
    assert(!(ch == 'r') ==> t[2].0.0[0] != k.0[0]);
    assert(t[3].0.0[0] != k.0[0]);
    assert(t[4].0.0[0] != k.0[0]);
    assert(t[5].0.1 != k.1);
    assert(t[6].0.0.len() != k.0.len());
    assert(t[7].0.0[0] != k.0[0]);
    assert(t[8].0.1 != k.1);
    assert(t[9].0 == char_key('e', ctrl_modifier(), EditorMode::Normal));
    assert(!(ch == 'e') ==> t[9].0.0[0] != k.0[0]);
}

spec fn vim_ctrl(ch: char) -> Option<Bound> {
    if ch == 'e' { Some(Bound::One(Action::OpenSystemEditor(OpenSystemEditor))) } else { if ch == 'r' { Some(Bound::One(Action::Redo(Redo))) } else { if ch == 'u' { Some(Bound::One(Action::MoveHalfPageUp(MoveHalfPageUp()))) } else { if ch == 'd' { Some(Bound::One(Action::MoveHalfPageDown(MoveHalfPageDown()))) } else { None } } } }
}

proof fn lemma_vim_ctrl(ch: char)
    ensures
        table_binding(vim_table(), vim_table().len() as int, char_key(ch, ctrl_modifier(), EditorMode::Normal)) == vim_ctrl(ch),
{
    let k = char_key(ch, ctrl_modifier(), EditorMode::Normal);
    lemma_vim_0_table_ctrl(ch);
    lemma_vim_1_table_ctrl(ch);
    lemma_table_binding_concat(vim_0_table(), vim_1_table(), vim_1_table().len() as int, k);
    lemma_vim_2_table_ctrl(ch);
    lemma_table_binding_concat(vim_0_table() + vim_1_table(), vim_2_table(), vim_2_table().len() as int, k);
    lemma_vim_3_table_ctrl(ch);
    lemma_table_binding_concat(vim_0_table() + vim_1_table() + vim_2_table(), vim_3_table(), vim_3_table().len() as int, k);
    lemma_vim_4_table_ctrl(ch);
    lemma_table_binding_concat(vim_0_table() + vim_1_table() + vim_2_table() + vim_3_table(), vim_4_table(), vim_4_table().len() as int, k);
    lemma_vim_5_table_ctrl(ch);
    lemma_table_binding_concat(vim_0_table() + vim_1_table() + vim_2_table() + vim_3_table() + vim_4_table(), vim_5_table(), vim_5_table().len() as int, k);
    lemma_vim_6_table_ctrl(ch);
    lemma_table_binding_concat(vim_0_table() + vim_1_table() + vim_2_table() + vim_3_table() + vim_4_table() + vim_5_table(), vim_6_table(), vim_6_table().len() as int, k);
    lemma_vim_7_table_ctrl(ch);
    lemma_table_binding_concat(vim_0_table() + vim_1_table() + vim_2_table() + vim_3_table() + vim_4_table() + vim_5_table() + vim_6_table(), vim_7_table(), vim_7_table().len() as int, k);
    lemma_vim_8_table_ctrl(ch);
    lemma_table_binding_concat(vim_0_table() + vim_1_table() + vim_2_table() + vim_3_table() + vim_4_table() + vim_5_table() + vim_6_table() + vim_7_table(), vim_8_table(), vim_8_table().len() as int, k);
    lemma_vim_9_table_ctrl(ch);
    lemma_table_binding_concat(vim_0_table() + vim_1_table() + vim_2_table() + vim_3_table() + vim_4_table() + vim_5_table() + vim_6_table() + vim_7_table() + vim_8_table(), vim_9_table(), vim_9_table().len() as int, k);
    lemma_vim_10_table_ctrl(ch);
    lemma_table_binding_concat(vim_0_table() + vim_1_table() + vim_2_table() + vim_3_table() + vim_4_table() + vim_5_table() + vim_6_table() + vim_7_table() + vim_8_table() + vim_9_table(), vim_10_table(), vim_10_table().len() as int, k);
}

proof fn lemma_vim_0_table_pair(c1: char, c2: char)
    ensures
        table_binding(vim_0_table(), vim_0_table().len() as int, pair_key(c1, c2)) is None,
{
    reveal_with_fuel(table_binding, 13);
    let t = vim_0_table();
    let k = pair_key(c1, c2);
    assert(t.len() == 12);
    assert(t[0].0.1 != k.1);
    assert(t[1].0.1 != k.1);
    assert(t[2].0.0.len() != k.0.len());
    assert(t[3].0.0.len() != k.0.len());
    assert(t[4].0.0.len() != k.0.len());
    assert(t[5].0.1 != k.1);
    assert(t[6].0.0.len() != k.0.len());
    assert(t[7].0.0.len() != k.0.len());
    assert(t[8].0.1 != k.1);
    assert(t[9].0.1 != k.1);
    assert(t[10].0.0.len() != k.0.len());
    assert(t[11].0.0.len() != k.0.len());
}

proof fn lemma_vim_1_table_pair(c1: char, c2: char)
    ensures
        table_binding(vim_1_table(), vim_1_table().len() as int, pair_key(c1, c2)) is None,
{
    reveal_with_fuel(table_binding, 13);
    let t = vim_1_table();
    let k = pair_key(c1, c2);
    assert(t.len() == 12);
    assert(t[0].0.1 != k.1);
    assert(t[1].0.0.len() != k.0.len());
    assert(t[2].0.1 != k.1);
    assert(t[3].0.1 != k.1);
    assert(t[4].0.0.len() != k.0.len());
    assert(t[5].0.1 != k.1);
    assert(t[6].0.0.len() != k.0.len());
    assert(t[7].0.1 != k.1);
    assert(t[8].0.1 != k.1);
    assert(t[9].0.1 != k.1);
    assert(t[10].0.1 != k.1);
    assert(t[11].0.0.len() != k.0.len());
}

proof fn lemma_vim_2_table_pair(c1: char, c2: char)
    ensures
        table_binding(vim_2_table(), vim_2_table().len() as int, pair_key(c1, c2)) is None,
{
    reveal_with_fuel(table_binding, 13);
    let t = vim_2_table();
    let k = pair_key(c1, c2);
    assert(t.len() == 12);
    assert(t[0].0.1 != k.1);
    assert(t[1].0.0.len() != k.0.len());
    assert(t[2].0.1 != k.1);
    assert(t[3].0.1 != k.1);
    assert(t[4].0.0.len() != k.0.len());
    assert(t[5].0.1 != k.1);
    assert(t[6].0.0.len() != k.0.len());
    assert(t[7].0.1 != k.1);
    assert(t[8].0.1 != k.1);
    assert(t[9].0.0.len() != k.0.len());
    assert(t[10].0.1 != k.1);
    assert(t[11].0.0.len() != k.0.len());
}

proof fn lemma_vim_3_table_pair(c1: char, c2: char)
    ensures
        table_binding(vim_3_table(), vim_3_table().len() as int, pair_key(c1, c2)) is None,
{
    reveal_with_fuel(table_binding, 13);
    let t = vim_3_table();
    let k = pair_key(c1, c2);
    assert(t.len() == 12);
    assert(t[0].0.1 != k.1);
    assert(t[1].0.0.len() != k.0.len());
    assert(t[2].0.1 != k.1);
    assert(t[3].0.0.len() != k.0.len());
    assert(t[4].0.0.len() != k.0.len());
    assert(t[5].0.0.len() != k.0.len());
    assert(t[6].0.1 != k.1);
    assert(t[7].0.1 != k.1);
    assert(t[8].0.1 != k.1);
    assert(t[9].0.0.len() != k.0.len());
    assert(t[10].0.1 != k.1);
    assert(t[11].0.0.len() != k.0.len());
}

proof fn lemma_vim_4_table_pair(c1: char, c2: char)
    ensures
        table_binding(vim_4_table(), vim_4_table().len() as int, pair_key(c1, c2)) is None,
{
    reveal_with_fuel(table_binding, 13);
    let t = vim_4_table();
    let k = pair_key(c1, c2);
    assert(t.len() == 12);
    assert(t[0].0.1 != k.1);
    assert(t[1].0.0.len() != k.0.len());
    assert(t[2].0.1 != k.1);
    assert(t[3].0.1 != k.1);
    assert(t[4].0.0.len() != k.0.len());
    assert(t[5].0.1 != k.1);
    assert(t[6].0.1 != k.1);
    assert(t[7].0.1 != k.1);
    assert(t[8].0.0.len() != k.0.len());
    assert(t[9].0.1 != k.1);
    assert(t[10].0.1 != k.1);
    assert(t[11].0.0.len() != k.0.len());
}

proof fn lemma_vim_5_table_pair(c1: char, c2: char)
    ensures
        table_binding(vim_5_table(), vim_5_table().len() as int, pair_key(c1, c2)) == (if c1 == 'g' && c2 == 'g' { Some(Bound::One(Action::MoveToFirstRow(MoveToFirstRow()))) } else { None }),
{
    reveal_with_fuel(table_binding, 13);
    let t = vim_5_table();
    let k = pair_key(c1, c2);
    assert(t.len() == 12);
    assert(t[0].0.1 != k.1);
    assert(t[1].0.1 != k.1);
    assert(t[2].0.0.len() != k.0.len());
    assert(t[3].0.0.len() != k.0.len());
    assert(t[4].0 == pair_key('g', 'g'));
    assert(!(c1 == 'g' && c2 == 'g') ==> t[4].0.0[0] != k.0[0] || t[4].0.0[1] != k.0[1]);
    assert(t[5].0.1 != k.1);
    assert(t[6].0.0.len() != k.0.len());
    assert(t[7].0.1 != k.1);
    assert(t[8].0.0.len() != k.0.len());
    assert(t[9].0.1 != k.1);
    assert(t[10].0.0.len() != k.0.len());
    assert(t[11].0.1 != k.1);
}

proof fn lemma_vim_6_table_pair(c1: char, c2: char)
    ensures
        table_binding(vim_6_table(), vim_6_table().len() as int, pair_key(c1, c2)) == (if c1 == 'd' && c2 == 'w' { Some(Bound::One(Action::DeleteWordForward(DeleteWordForward(1)))) } else { if c1 == 'd' && c2 == 'd' { Some(Bound::One(Action::DeleteLine(DeleteLine(1)))) } else { None } }),
{
    reveal_with_fuel(table_binding, 13);
    let t = vim_6_table();
    let k = pair_key(c1, c2);
    assert(t.len() == 12);
    assert(t[0].0.0.len() != k.0.len());
    assert(t[1].0.1 != k.1);
    assert(t[2].0.0.len() != k.0.len());
    assert(t[3].0.0.len() != k.0.len());
    assert(t[4].0.1 != k.1);
    assert(t[5].0.0.len() != k.0.len());
    assert(t[6].0.0.len() != k.0.len());
    assert(t[7].0.1 != k.1);
    assert(t[8].0.1 != k.1);
    assert(t[9].0 == pair_key('d', 'd'));
    assert(!(c1 == 'd' && c2 == 'd') ==> t[9].0.0[0] != k.0[0] || t[9].0.0[1] != k.0[1]);
    assert(t[10].0 == pair_key('d', 'w'));
    assert(!(c1 == 'd' && c2 == 'w') ==> t[10].0.0[0] != k.0[0] || t[10].0.0[1] != k.0[1]);
    assert(t[11].0.0[1] != k.0[1]);
}

proof fn lemma_vim_7_table_pair(c1: char, c2: char)
    ensures
        table_binding(vim_7_table(), vim_7_table().len() as int, pair_key(c1, c2)) is None,
{
    reveal_with_fuel(table_binding, 13);
    let t = vim_7_table();
    let k = pair_key(c1, c2);
    assert(t.len() == 12);
    assert(t[0].0.0.len() != k.0.len());
    assert(t[1].0.0.len() != k.0.len());
    assert(t[2].0.0.len() != k.0.len());
    assert(t[3].0.1 != k.1);
    assert(t[4].0.0.len() != k.0.len());
    assert(t[5].0.1 != k.1);
    assert(t[6].0.1 != k.1);
    assert(t[7].0.1 != k.1);
    assert(t[8].0.1 != k.1);
    assert(t[9].0.1 != k.1);
    assert(t[10].0.1 != k.1);
    assert(t[11].0.1 != k.1);
}

proof fn lemma_vim_8_table_pair(c1: char, c2: char)
    ensures
        table_binding(vim_8_table(), vim_8_table().len() as int, pair_key(c1, c2)) == (if c1 == 'c' && c2 == 'w' { Some(Bound::One(Action::ChangeWord(ChangeWord(1)))) } else { None }),
{
    reveal_with_fuel(table_binding, 13);
    let t = vim_8_table();
    let k = pair_key(c1, c2);
    assert(t.len() == 12);
    assert(t[0].0.1 != k.1);
    assert(t[1].0.1 != k.1);
    assert(t[2].0 == pair_key('c', 'w'));
    assert(!(c1 == 'c' && c2 == 'w') ==> t[2].0.0[0] != k.0[0] || t[2].0.0[1] != k.0[1]);
    assert(t[3].0.0[1] != k.0[1]);
    assert(t[4].0.0.len() != k.0.len());
    assert(t[5].0.0.len() != k.0.len());
    assert(t[6].0.0.len() != k.0.len());
    assert(t[7].0.0.len() != k.0.len());
    assert(t[8].0.0.len() != k.0.len());
    assert(t[9].0.0.len() != k.0.len());
    assert(t[10].0.0.len() != k.0.len());
    assert(t[11].0.0.len() != k.0.len());
}

proof fn lemma_vim_9_table_pair(c1: char, c2: char)
    ensures
        table_binding(vim_9_table(), vim_9_table().len() as int, pair_key(c1, c2)) is None,
{
    reveal_with_fuel(table_binding, 13);
    let t = vim_9_table();
    let k = pair_key(c1, c2);
    assert(t.len() == 12);
    assert(t[0].0.0.len() != k.0.len());
    assert(t[1].0.0.len() != k.0.len());
    assert(t[2].0.0.len() != k.0.len());
    assert(t[3].0.0.len() != k.0.len());
    assert(t[4].0.0.len() != k.0.len());
    assert(t[5].0.0.len() != k.0.len());
    assert(t[6].0.0.len() != k.0.len());
    assert(t[7].0.0.len() != k.0.len());
    assert(t[8].0.0.len() != k.0.len());
    assert(t[9].0.0.len() != k.0.len());
    assert(t[10].0.1 != k.1);
    assert(t[11].0.1 != k.1);
}

proof fn lemma_vim_10_table_pair(c1: char, c2: char)
    ensures
        table_binding(vim_10_table(), vim_10_table().len() as int, pair_key(c1, c2)) == (if c1 == 'y' && c2 == 'y' { Some(Bound::One(Action::CopyLine(CopyLine))) } else { None }),
{
    reveal_with_fuel(table_binding, 11);
    let t = vim_10_table();
    let k = pair_key(c1, c2);
    assert(t.len() == 10);
    assert(t[0].0.0.len() != k.0.len());
    assert(t[1].0.0.len() != k.0.len());
    assert(t[2].0.0.len() != k.0.len());
    assert(t[3].0.0.len() != k.0.len());
    assert(t[4].0.0.len() != k.0.len());
    assert(t[5].0.1 != k.1);
    assert(t[6].0 == pair_key('y', 'y'));
    assert(!(c1 == 'y' && c2 == 'y') ==> t[6].0.0[0] != k.0[0] || t[6].0.0[1] != k.0[1]);
    assert(t[7].0.0.len() != k.0.len());
    assert(t[8].0.1 != k.1);
    assert(t[9].0.0.len() != k.0.len());
}

spec fn vim_pair(c1: char, c2: char) -> Option<Bound> {
    if c1 == 'y' && c2 == 'y' { Some(Bound::One(Action::CopyLine(CopyLine))) } else { if c1 == 'c' && c2 == 'w' { Some(Bound::One(Action::ChangeWord(ChangeWord(1)))) } else { if c1 == 'd' && c2 == 'w' { Some(Bound::One(Action::DeleteWordForward(DeleteWordForward(1)))) } else { if c1 == 'd' && c2 == 'd' { Some(Bound::One(Action::DeleteLine(DeleteLine(1)))) } else { if c1 == 'g' && c2 == 'g' { Some(Bound::One(Action::MoveToFirstRow(MoveToFirstRow()))) } else { None } } } } }
}

proof fn lemma_vim_pair(c1: char, c2: char)
    ensures
        table_binding(vim_table(), vim_table().len() as int, pair_key(c1, c2)) == vim_pair(c1, c2),
{
    let k = pair_key(c1, c2);
    lemma_vim_0_table_pair(c1, c2);
    lemma_vim_1_table_pair(c1, c2);
    lemma_table_binding_concat(vim_0_table(), vim_1_table(), vim_1_table().len() as int, k);
    lemma_vim_2_table_pair(c1, c2);
    lemma_table_binding_concat(vim_0_table() + vim_1_table(), vim_2_table(), vim_2_table().len() as int, k);
    lemma_vim_3_table_pair(c1, c2);
    lemma_table_binding_concat(vim_0_table() + vim_1_table() + vim_2_table(), vim_3_table(), vim_3_table().len() as int, k);
    lemma_vim_4_table_pair(c1, c2);
    lemma_table_binding_concat(vim_0_table() + vim_1_table() + vim_2_table() + vim_3_table(), vim_4_table(), vim_4_table().len() as int, k);
    lemma_vim_5_table_pair(c1, c2);
    lemma_table_binding_concat(vim_0_table() + vim_1_table() + vim_2_table() + vim_3_table() + vim_4_table(), vim_5_table(), vim_5_table().len() as int, k);
    lemma_vim_6_table_pair(c1, c2);
    lemma_table_binding_concat(vim_0_table() + vim_1_table() + vim_2_table() + vim_3_table() + vim_4_table() + vim_5_table(), vim_6_table(), vim_6_table().len() as int, k);
    lemma_vim_7_table_pair(c1, c2);
    lemma_table_binding_concat(vim_0_table() + vim_1_table() + vim_2_table() + vim_3_table() + vim_4_table() + vim_5_table() + vim_6_table(), vim_7_table(), vim_7_table().len() as int, k);
    lemma_vim_8_table_pair(c1, c2);
    lemma_table_binding_concat(vim_0_table() + vim_1_table() + vim_2_table() + vim_3_table() + vim_4_table() + vim_5_table() + vim_6_table() + vim_7_table(), vim_8_table(), vim_8_table().len() as int, k);
    lemma_vim_9_table_pair(c1, c2);
    lemma_table_binding_concat(vim_0_table() + vim_1_table() + vim_2_table() + vim_3_table() + vim_4_table() + vim_5_table() + vim_6_table() + vim_7_table() + vim_8_table(), vim_9_table(), vim_9_table().len() as int, k);
    lemma_vim_10_table_pair(c1, c2);
    lemma_table_binding_concat(vim_0_table() + vim_1_table() + vim_2_table() + vim_3_table() + vim_4_table() + vim_5_table() + vim_6_table() + vim_7_table() + vim_8_table() + vim_9_table(), vim_10_table(), vim_10_table().len() as int, k);
}

/// The Vim-like key map binds the other keys of normal mode that its
/// documentation lists: `V` selects the line; `J` joins the line with the
/// one below; `D` deletes to the end of the line; `G` and `gg` go to the
/// last and first row; `N` finds the previous match; Ctrl+d and Ctrl+u jump
/// half a page down and up; Ctrl+r redoes; `dd` deletes the line, `dw` the
/// word; `cw` changes the word; `yy` copies the line; `a` and `A` append
/// after the cursor and at the end of the line, and `o` and `O` open a line
/// below and above, each switching to insert mode.
pub open spec fn vim_more_keys_bound(m: Map<(Seq<KeyInput>, EditorMode), Action>) -> bool {
    &&& m.contains_key(char_key('V', shift_modifier(), EditorMode::Normal)) && m[char_key('V', shift_modifier(), EditorMode::Normal)] == Action::SelectLine(SelectLine)
    &&& m.contains_key(char_key('J', shift_modifier(), EditorMode::Normal)) && m[char_key('J', shift_modifier(), EditorMode::Normal)] == Action::JoinLineWithLineBelow(JoinLineWithLineBelow)
    &&& m.contains_key(char_key('D', shift_modifier(), EditorMode::Normal)) && m[char_key('D', shift_modifier(), EditorMode::Normal)] == Action::DeleteToEndOfLine(DeleteToEndOfLine)
    &&& m.contains_key(char_key('G', shift_modifier(), EditorMode::Normal)) && m[char_key('G', shift_modifier(), EditorMode::Normal)] == Action::MoveToLastRow(MoveToLastRow())
    &&& m.contains_key(char_key('N', shift_modifier(), EditorMode::Normal)) && m[char_key('N', shift_modifier(), EditorMode::Normal)] == Action::FindPrevious(FindPrevious)
    &&& m.contains_key(char_key('d', ctrl_modifier(), EditorMode::Normal)) && m[char_key('d', ctrl_modifier(), EditorMode::Normal)] == Action::MoveHalfPageDown(MoveHalfPageDown())
    &&& m.contains_key(char_key('u', ctrl_modifier(), EditorMode::Normal)) && m[char_key('u', ctrl_modifier(), EditorMode::Normal)] == Action::MoveHalfPageUp(MoveHalfPageUp())
    &&& m.contains_key(char_key('r', ctrl_modifier(), EditorMode::Normal)) && m[char_key('r', ctrl_modifier(), EditorMode::Normal)] == Action::Redo(Redo)
    &&& m.contains_key(pair_key('g', 'g')) && m[pair_key('g', 'g')] == Action::MoveToFirstRow(MoveToFirstRow())
    &&& m.contains_key(pair_key('d', 'd')) && m[pair_key('d', 'd')] == Action::DeleteLine(DeleteLine(1))
    &&& m.contains_key(pair_key('d', 'w')) && m[pair_key('d', 'w')] == Action::DeleteWordForward(DeleteWordForward(1))
    &&& m.contains_key(pair_key('c', 'w')) && m[pair_key('c', 'w')] == Action::ChangeWord(ChangeWord(1))
    &&& m.contains_key(pair_key('y', 'y')) && m[pair_key('y', 'y')] == Action::CopyLine(CopyLine)
    &&& m.contains_key(normal_key('a')) && bound_as(m[normal_key('a')], Bound::Chain(seq![Action::SwitchMode(SwitchMode(EditorMode::Insert)), Action::MoveForward(MoveForward(1))]))
    &&& m.contains_key(char_key('A', shift_modifier(), EditorMode::Normal)) && bound_as(m[char_key('A', shift_modifier(), EditorMode::Normal)], Bound::Chain(seq![Action::SwitchMode(SwitchMode(EditorMode::Insert)), Action::MoveToEndOfLine(MoveToEndOfLine()), Action::MoveForward(MoveForward(1))]))
    &&& m.contains_key(normal_key('o')) && bound_as(m[normal_key('o')], Bound::Chain(seq![Action::SwitchMode(SwitchMode(EditorMode::Insert)), Action::AppendNewline(AppendNewline(1))]))
    &&& m.contains_key(char_key('O', shift_modifier(), EditorMode::Normal)) && bound_as(m[char_key('O', shift_modifier(), EditorMode::Normal)], Bound::Chain(seq![Action::SwitchMode(SwitchMode(EditorMode::Insert)), Action::InsertNewline(InsertNewline(1))]))
}

/// Bindings that hold the entries of the Vim-like table bind the keys that
/// [`vim_more_keys_bound`] lists as it says.
pub proof fn lemma_vim_more_keys(v: Seq<(KeyEventRegister, Action)>)
    requires
        matches_table(v, vim_table()),
    ensures
        vim_more_keys_bound(to_map(v)),
{
    assert(v.take(v.len() as int) =~= v);
    lemma_vim_shift('V');
    lemma_table_binding_map(v, vim_table(), v.len() as int, char_key('V', shift_modifier(), EditorMode::Normal));
    lemma_vim_shift('J');
    lemma_table_binding_map(v, vim_table(), v.len() as int, char_key('J', shift_modifier(), EditorMode::Normal));
    lemma_vim_shift('D');
    lemma_table_binding_map(v, vim_table(), v.len() as int, char_key('D', shift_modifier(), EditorMode::Normal));
    lemma_vim_shift('G');
    lemma_table_binding_map(v, vim_table(), v.len() as int, char_key('G', shift_modifier(), EditorMode::Normal));
    lemma_vim_shift('N');
    lemma_table_binding_map(v, vim_table(), v.len() as int, char_key('N', shift_modifier(), EditorMode::Normal));
    lemma_vim_ctrl('d');
    lemma_table_binding_map(v, vim_table(), v.len() as int, char_key('d', ctrl_modifier(), EditorMode::Normal));
    lemma_vim_ctrl('u');
    lemma_table_binding_map(v, vim_table(), v.len() as int, char_key('u', ctrl_modifier(), EditorMode::Normal));
    lemma_vim_ctrl('r');
    lemma_table_binding_map(v, vim_table(), v.len() as int, char_key('r', ctrl_modifier(), EditorMode::Normal));
    lemma_vim_pair('g', 'g');
    lemma_table_binding_map(v, vim_table(), v.len() as int, pair_key('g', 'g'));
    lemma_vim_pair('d', 'd');
    lemma_table_binding_map(v, vim_table(), v.len() as int, pair_key('d', 'd'));
    lemma_vim_pair('d', 'w');
    lemma_table_binding_map(v, vim_table(), v.len() as int, pair_key('d', 'w'));
    lemma_vim_pair('c', 'w');
    lemma_table_binding_map(v, vim_table(), v.len() as int, pair_key('c', 'w'));
    lemma_vim_pair('y', 'y');
    lemma_table_binding_map(v, vim_table(), v.len() as int, pair_key('y', 'y'));
    lemma_vim_plain('a');
    lemma_table_binding_map(v, vim_table(), v.len() as int, normal_key('a'));
    lemma_vim_shift('A');
    lemma_table_binding_map(v, vim_table(), v.len() as int, char_key('A', shift_modifier(), EditorMode::Normal));
    lemma_vim_plain('o');
    lemma_table_binding_map(v, vim_table(), v.len() as int, normal_key('o'));
    lemma_vim_shift('O');
    lemma_table_binding_map(v, vim_table(), v.len() as int, char_key('O', shift_modifier(), EditorMode::Normal));
}

} // verus!
