//! Key bindings: sequences of key inputs bound to actions, per mode.
use vstd::prelude::*;
use crate::actions::{Action, AppendToSearch, InsertChar, same_action};
use crate::events::deprecated::{KeyEvent, key_event_input};
use crate::events::input::{KeyCode, KeyInput, Modifiers, altgr_normalized, no_modifiers, shift_modifier};
use crate::mode::EditorMode;
use crate::state::{EditorState, captured, recorded_effect};
use crate::events::keymap::{matches_table, vim_table, emacs_table, vim_keybindings, emacs_keybindings};
use crate::events::bindings::{vim_plain_keys_bound, vim_more_keys_bound, emacs_keys_bound};

verus! {

/// Values that give a sequence of key inputs.
pub trait IntoKeySequence {
    /// The key inputs.
    spec fn key_seq(&self) -> Seq<KeyInput>;

    /// The key inputs.
    fn into_keys(self) -> (v: Vec<KeyInput>)
        ensures
            v@ == self.key_seq(),
    ;
}

impl IntoKeySequence for Vec<KeyInput> {
    open spec fn key_seq(&self) -> Seq<KeyInput> {
        self@
    }

    fn into_keys(self) -> (v: Vec<KeyInput>) {
        self
    }
}

impl IntoKeySequence for Vec<KeyEvent> {
    open spec fn key_seq(&self) -> Seq<KeyInput> {
        self@.map_values(|e: KeyEvent| key_event_input(e))
    }

    fn into_keys(self) -> (v: Vec<KeyInput>) {
        let mut keys: Vec<KeyInput> = Vec::new();
        let mut i: usize = 0;
        while i < self.len()
            invariant
                i <= self@.len(),
                keys@ == self@.take(i as int).map_values(|e: KeyEvent| key_event_input(e)),
            decreases self@.len() - i,
        {
            keys.push(self[i].to_key_input());
            proof {
                assert(self@.take(i + 1).map_values(|e: KeyEvent| key_event_input(e))
                    =~= self@.take(i as int).map_values(|e: KeyEvent| key_event_input(e)).push(key_event_input(self@[i as int])));
            }
            i = i + 1;
        }
        proof {
            assert(self@.take(i as int) =~= self@);
        }
        keys
    }
}

/// A sequence of key inputs.
#[derive(Debug, Clone, PartialEq, Eq, Hash)]
pub struct KeyInputSequence(pub Vec<KeyInput>);

impl KeyInputSequence {
    /// A sequence of the given inputs.
    pub fn new(keys: Vec<KeyInput>) -> (s: Self)
        ensures
            s.0@ == keys@,
    {
        KeyInputSequence(keys)
    }
}

impl IntoKeySequence for KeyInputSequence {
    open spec fn key_seq(&self) -> Seq<KeyInput> {
        self.0@
    }

    fn into_keys(self) -> (v: Vec<KeyInput>) {
        self.0
    }
}

/// A key sequence bound in a mode.
#[derive(Debug, Clone, PartialEq, Eq, Hash)]
pub struct KeyEventRegister {
    pub keys: Vec<KeyInput>,
    pub mode: EditorMode,
}

/// What a binding key stands for: the key inputs and the mode.
pub open spec fn reg_key(r: KeyEventRegister) -> (Seq<KeyInput>, EditorMode) {
    (r.keys@, r.mode)
}

impl KeyEventRegister {
    /// A key sequence in a mode.
    pub fn new<T: IntoKeySequence>(key: T, mode: EditorMode) -> (r: Self)
        ensures
            r.keys@ == key.key_seq(),
            r.mode == mode,
    {
        KeyEventRegister { keys: key.into_keys(), mode }
    }

    /// A key sequence in normal mode.
    pub fn n<T: IntoKeySequence>(key: T) -> (r: Self)
        ensures
            r.keys@ == key.key_seq(),
            r.mode == EditorMode::Normal,
    {
        Self::new(key, EditorMode::Normal)
    }

    /// A key sequence in visual mode.
    pub fn v<T: IntoKeySequence>(key: T) -> (r: Self)
        ensures
            r.keys@ == key.key_seq(),
            r.mode == EditorMode::Visual,
    {
        Self::new(key, EditorMode::Visual)
    }

    /// A key sequence in insert mode.
    pub fn i<T: IntoKeySequence>(key: T) -> (r: Self)
        ensures
            r.keys@ == key.key_seq(),
            r.mode == EditorMode::Insert,
    {
        Self::new(key, EditorMode::Insert)
    }

    /// A key sequence in search mode.
    pub fn s<T: IntoKeySequence>(key: T) -> (r: Self)
        ensures
            r.keys@ == key.key_seq(),
            r.mode == EditorMode::Search,
    {
        Self::new(key, EditorMode::Search)
    }
}

/// Whether two sequences of key inputs are equal.
pub fn same_keys(a: &Vec<KeyInput>, b: &Vec<KeyInput>) -> (r: bool)
    ensures
        r == (a@ == b@),
{
    if a.len() != b.len() {
        return false;
    }
    let mut i: usize = 0;
    while i < a.len()
        invariant
            a@.len() == b@.len(),
            i <= a@.len(),
            forall|j: int| 0 <= j < i ==> a@[j] == b@[j],
        decreases a@.len() - i,
    {
        if a[i] != b[i] {
            return false;
        }
        i = i + 1;
    }
    assert(a@ =~= b@);
    true
}

/// Whether `p` is a prefix of `s`.
pub open spec fn is_prefix(p: Seq<KeyInput>, s: Seq<KeyInput>) -> bool {
    p.len() <= s.len() && s.take(p.len() as int) == p
}

/// Whether a sequence starts with another one.
pub fn starts_with(s: &Vec<KeyInput>, p: &Vec<KeyInput>) -> (r: bool)
    ensures
        r == is_prefix(p@, s@),
{
    if p.len() > s.len() {
        return false;
    }
    let mut i: usize = 0;
    while i < p.len()
        invariant
            p@.len() <= s@.len(),
            i <= p@.len(),
            forall|j: int| 0 <= j < i ==> s@[j] == p@[j],
        decreases p@.len() - i,
    {
        if s[i] != p[i] {
            assert(s@.take(p@.len() as int)[i as int] != p@[i as int]);
            return false;
        }
        i = i + 1;
    }
    assert(s@.take(p@.len() as int) =~= p@);
    true
}

/// The bindings of a sequence of entries; a later entry overrides an
/// earlier one with the same key.
pub open spec fn to_map(s: Seq<(KeyEventRegister, Action)>) -> Map<(Seq<KeyInput>, EditorMode), Action>
    decreases s.len(),
{
    if s.len() == 0 {
        Map::empty()
    } else {
        to_map(s.drop_last()).insert(reg_key(s.last().0), s.last().1)
    }
}

/// No two entries have the same key.
pub open spec fn distinct_keys(s: Seq<(KeyEventRegister, Action)>) -> bool {
    forall|i: int, j: int| 0 <= i < j < s.len() ==> reg_key(#[trigger] s[i].0) != reg_key(#[trigger] s[j].0)
}

/// The number of entries bound in `mode` whose keys start with `p`.
pub open spec fn prefix_count(s: Seq<(KeyEventRegister, Action)>, p: Seq<KeyInput>, mode: EditorMode) -> nat
    decreases s.len(),
{
    if s.len() == 0 {
        0
    } else {
        prefix_count(s.drop_last(), p, mode) + if s.last().0.mode == mode && is_prefix(p, s.last().0.keys@) { 1nat } else { 0nat }
    }
}

/// The index of the entry with the given key, if any.
pub open spec fn key_index(s: Seq<(KeyEventRegister, Action)>, k: (Seq<KeyInput>, EditorMode)) -> Option<int>
    decreases s.len(),
{
    if s.len() == 0 {
        None
    } else if reg_key(s.last().0) == k {
        Some(s.len() - 1)
    } else {
        key_index(s.drop_last(), k)
    }
}

/// Where a key sits in the entries, and what the bindings give for it.
pub proof fn lemma_key_index(s: Seq<(KeyEventRegister, Action)>, k: (Seq<KeyInput>, EditorMode))
    ensures
        key_index(s, k) matches Some(i) ==> 0 <= i < s.len() && reg_key(s[i].0) == k,
        key_index(s, k) is None ==> forall|i: int| 0 <= i < s.len() ==> reg_key(#[trigger] s[i].0) != k,
        to_map(s).contains_key(k) == key_index(s, k) is Some,
        key_index(s, k) matches Some(i) ==> to_map(s)[k] == s[i].1,
    decreases s.len(),
{
    if s.len() > 0 {
        lemma_key_index(s.drop_last(), k);
        if reg_key(s.last().0) != k {
            assert forall|i: int| 0 <= i < s.len() - 1 implies s.drop_last()[i] == s[i] by {}
        }
    }
}

proof fn lemma_distinct_key_index(s: Seq<(KeyEventRegister, Action)>, i: int)
    requires
        distinct_keys(s),
        0 <= i < s.len(),
    ensures
        key_index(s, reg_key(s[i].0)) == Some(i),
    decreases s.len(),
{
    if i < s.len() - 1 {
        assert(reg_key(s[i].0) != reg_key(s[s.len() - 1].0));
        assert(s.drop_last()[i] == s[i]);
        lemma_distinct_key_index(s.drop_last(), i);
    }
}

proof fn lemma_map_update(s: Seq<(KeyEventRegister, Action)>, i: int, e: (KeyEventRegister, Action))
    requires
        distinct_keys(s),
        0 <= i < s.len(),
        reg_key(s[i].0) == reg_key(e.0),
    ensures
        to_map(s.update(i, e)) == to_map(s).insert(reg_key(e.0), e.1),
        distinct_keys(s.update(i, e)),
    decreases s.len(),
{
    let t = s.update(i, e);
    if i == s.len() - 1 {
        assert(t.drop_last() =~= s.drop_last());
        assert(to_map(t) =~= to_map(s).insert(reg_key(e.0), e.1));
    } else {
        assert(t.drop_last() =~= s.drop_last().update(i, e));
        lemma_map_update(s.drop_last(), i, e);
        assert(reg_key(s[i].0) != reg_key(s[s.len() - 1].0));
        assert(to_map(t) =~= to_map(s).insert(reg_key(e.0), e.1));
    }
    assert forall|a: int, b: int| 0 <= a < b < t.len() implies reg_key(#[trigger] t[a].0) != reg_key(#[trigger] t[b].0) by {
        if a != i && b != i {
            assert(reg_key(s[a].0) != reg_key(s[b].0));
        } else if a == i {
            assert(reg_key(s[i].0) != reg_key(s[b].0));
        } else {
            assert(reg_key(s[a].0) != reg_key(s[i].0));
        }
    }
}

proof fn lemma_map_remove(s: Seq<(KeyEventRegister, Action)>, i: int)
    requires
        distinct_keys(s),
        0 <= i < s.len(),
    ensures
        to_map(s.remove(i)) == to_map(s).remove(reg_key(s[i].0)),
        distinct_keys(s.remove(i)),
    decreases s.len(),
{
    let k = reg_key(s[i].0);
    let t = s.remove(i);
    if i == s.len() - 1 {
        assert(t =~= s.drop_last());
        lemma_key_index(s.drop_last(), k);
        assert forall|j: int| 0 <= j < s.len() - 1 implies reg_key(#[trigger] s.drop_last()[j].0) != k by {
            assert(s.drop_last()[j] == s[j]);
            assert(reg_key(s[j].0) != reg_key(s[i].0));
        }
        assert(to_map(t) =~= to_map(s).remove(k));
    } else {
        assert(t.drop_last() =~= s.drop_last().remove(i));
        assert(t.last() == s.last());
        lemma_map_remove(s.drop_last(), i);
        assert(reg_key(s[i].0) != reg_key(s[s.len() - 1].0));
        assert(to_map(t) =~= to_map(s).remove(k));
    }
    assert forall|a: int, b: int| 0 <= a < b < t.len() implies reg_key(#[trigger] t[a].0) != reg_key(#[trigger] t[b].0) by {
        let a2 = if a < i { a } else { a + 1 };
        let b2 = if b < i { b } else { b + 1 };
        assert(t[a] == s[a2] && t[b] == s[b2]);
        assert(reg_key(s[a2].0) != reg_key(s[b2].0));
    }
}

/// One step of the key lookup: the typed input joins the pending ones.
/// Without a binding that starts with them, the pending inputs are dropped;
/// with exactly one, and that one bound to exactly them, its index is the
/// result and the pending inputs are dropped; otherwise they stay pending.
pub open spec fn lookup_step(
    s: Seq<(KeyEventRegister, Action)>,
    pending: Seq<KeyInput>,
    c: KeyInput,
    mode: EditorMode,
) -> (Seq<KeyInput>, Option<int>) {
    let p = pending.push(c);
    let n = prefix_count(s, p, mode);
    if n == 0 {
        (Seq::empty(), None)
    } else if n == 1 {
        match key_index(s, (p, mode)) {
            Some(i) => (Seq::empty(), Some(i)),
            None => (p, None),
        }
    } else {
        (p, None)
    }
}

/// Handles key inputs: inserts typed characters in insert mode and looks up
/// bound actions in the other cases.
#[derive(Debug)]
pub struct KeyEventHandler {
    lookup: Vec<KeyInput>,
    register: Vec<(KeyEventRegister, Action)>,
    capture_on_insert: bool,
}

impl KeyEventHandler {
    /// No two bindings have the same key.
    #[verifier::type_invariant]
    spec fn inv(&self) -> bool {
        distinct_keys(self.register@)
    }

    /// The entries of the registry.
    pub closed spec fn entries(&self) -> Seq<(KeyEventRegister, Action)> {
        self.register@
    }

    /// The actions bound to key sequences in each mode.
    pub open spec fn bindings(&self) -> Map<(Seq<KeyInput>, EditorMode), Action> {
        to_map(self.entries())
    }

    /// The inputs typed so far of a key sequence that is not complete yet.
    pub closed spec fn pending(&self) -> Seq<KeyInput> {
        self.lookup@
    }

    /// Whether every character typed in insert mode saves the state for undo.
    pub closed spec fn captures_on_insert(&self) -> bool {
        self.capture_on_insert
    }

    /// A handler without bindings.
    pub fn empty(capture_on_insert: bool) -> (h: Self)
        ensures
            h.entries() == Seq::<(KeyEventRegister, Action)>::empty(),
            h.bindings() == Map::<(Seq<KeyInput>, EditorMode), Action>::empty(),
            h.pending() == Seq::<KeyInput>::empty(),
            h.captures_on_insert() == capture_on_insert,
    {
        let h = KeyEventHandler { lookup: Vec::new(), register: Vec::new(), capture_on_insert };
        assert(h.register@ =~= Seq::<(KeyEventRegister, Action)>::empty());
        h
    }

    /// A handler with the given bindings; a later binding of the same key
    /// overrides an earlier one.
    pub fn new(register: Vec<(KeyEventRegister, Action)>, capture_on_insert: bool) -> (h: Self)
        ensures
            h.bindings() == to_map(register@),
            h.pending() == Seq::<KeyInput>::empty(),
            h.captures_on_insert() == capture_on_insert,
    {
        let mut h = Self::empty(capture_on_insert);
        h.extend(register);
        h
    }

    /// Binds a key sequence to an action, replacing an earlier binding of
    /// the same sequence.
    pub fn insert(&mut self, key: KeyEventRegister, action: Action)
        ensures
            final(self).bindings() == old(self).bindings().insert(reg_key(key), action),
            final(self).pending() == old(self).pending(),
            final(self).captures_on_insert() == old(self).captures_on_insert(),
    {
        proof {
            use_type_invariant(&*self);
        }
        let found = self.find(&key);
        let ghost before = self.entries();
        let mut register: Vec<(KeyEventRegister, Action)> = Vec::new();
        std::mem::swap(&mut register, &mut self.register);
        let ghost s = register@;
        match found {
            Some(i) => {
                let e = (key, action);
                proof {
                    lemma_map_update(s, i as int, e);
                }
                register.set(i, e);
            },
            None => {
                register.push((key, action));
                proof {
                    assert(register@.drop_last() =~= s);
                    assert forall|a: int, b: int| 0 <= a < b < register@.len() implies
                        reg_key(#[trigger] register@[a].0) != reg_key(#[trigger] register@[b].0) by {
                        if b < s.len() {
                            assert(register@[a] == s[a] && register@[b] == s[b]);
                        } else {
                            assert(register@[a] == s[a]);
                            assert(reg_key(before[a].0) != reg_key(key));
                        }
                    }
                }
            },
        }
        self.register = register;
    }

    /// The index of the entry bound to the key of `key`, if any.
    fn find(&self, key: &KeyEventRegister) -> (r: Option<usize>)
        ensures
            r matches Some(i) ==> i < self.entries().len() && reg_key(self.entries()[i as int].0) == reg_key(*key),
            r is None ==> forall|j: int| 0 <= j < self.entries().len() ==> reg_key(#[trigger] self.entries()[j].0) != reg_key(*key),
    {
        let mut i: usize = 0;
        while i < self.register.len()
            invariant
                i <= self.register@.len(),
                forall|j: int| 0 <= j < i ==> reg_key(#[trigger] self.register@[j].0) != reg_key(*key),
            decreases self.register@.len() - i,
        {
            if same_keys(&self.register[i].0.keys, &key.keys) && self.register[i].0.mode == key.mode {
                return Some(i);
            }
            i = i + 1;
        }
        None
    }

    /// Binds each key sequence of the list in turn.
    pub fn extend(&mut self, bindings: Vec<(KeyEventRegister, Action)>)
        ensures
            final(self).bindings() == old(self).bindings().union_prefer_right(to_map(bindings@)),
            final(self).pending() == old(self).pending(),
            final(self).captures_on_insert() == old(self).captures_on_insert(),
    {
        let mut rest = bindings;
        let ghost all = rest@;
        let n = rest.len();
        let mut k: usize = 0;
        while k < n
            invariant
                n == all.len(),
                k <= n,
                rest@ == all.skip(k as int),
                self.bindings() == old(self).bindings().union_prefer_right(to_map(all.take(k as int))),
                self.pending() == old(self).pending(),
                self.captures_on_insert() == old(self).captures_on_insert(),
            decreases n - k,
        {
            let e = rest.remove(0);
            proof {
                assert(e == all[k as int]);
                assert(all.take(k + 1).drop_last() =~= all.take(k as int));
                assert(rest@ =~= all.skip(k + 1));
            }
            self.insert(e.0, e.1);
            proof {
                assert(self.bindings() =~= old(self).bindings().union_prefer_right(to_map(all.take(k + 1))));
            }
            k = k + 1;
        }
        proof {
            assert(all.take(n as int) =~= all);
        }
    }

    /// Removes the binding of a key sequence, if there is one.
    pub fn remove(&mut self, key: &KeyEventRegister)
        ensures
            final(self).bindings() == old(self).bindings().remove(reg_key(*key)),
            final(self).pending() == old(self).pending(),
            final(self).captures_on_insert() == old(self).captures_on_insert(),
    {
        proof {
            use_type_invariant(&*self);
        }
        match self.find(key) {
            Some(i) => {
                let mut register: Vec<(KeyEventRegister, Action)> = Vec::new();
                std::mem::swap(&mut register, &mut self.register);
                proof {
                    lemma_map_remove(register@, i as int);
                }
                let _ = register.remove(i);
                self.register = register;
            },
            None => {
                proof {
                    lemma_key_index(self.register@, reg_key(*key));
                    assert(self.bindings() =~= old(self).bindings().remove(reg_key(*key)));
                }
            },
        }
    }

    /// Takes a key input in a mode: returns the index of the entry bound to
    /// the completed sequence, if any (see [`lookup_step`]).
    fn lookup_index(&mut self, c: KeyInput, mode: EditorMode) -> (r: Option<usize>)
        ensures
            final(self).entries() == old(self).entries(),
            final(self).captures_on_insert() == old(self).captures_on_insert(),
            final(self).pending() == lookup_step(old(self).entries(), old(self).pending(), c, mode).0,
            r matches Some(i) ==> lookup_step(old(self).entries(), old(self).pending(), c, mode).1 == Some(i as int)
                && i < old(self).entries().len(),
            r is None ==> lookup_step(old(self).entries(), old(self).pending(), c, mode).1 is None,
    {
        proof {
            use_type_invariant(&*self);
        }
        let mut lookup: Vec<KeyInput> = Vec::new();
        std::mem::swap(&mut lookup, &mut self.lookup);
        lookup.push(c);
        let ghost p = lookup@;
        let mut count: usize = 0;
        let mut exact: Option<usize> = None;
        let mut i: usize = 0;
        while i < self.register.len()
            invariant
                i <= self.register@.len(),
                lookup@ == p,
                count == prefix_count(self.register@.take(i as int), p, mode),
                count <= i,
                exact matches Some(x) ==> key_index(self.register@.take(i as int), (p, mode)) == Some(x as int) && x < i,
                exact is None ==> key_index(self.register@.take(i as int), (p, mode)) is None,
            decreases self.register@.len() - i,
        {
            let entry = &self.register[i].0;
            proof {
                assert(self.register@.take(i + 1).drop_last() =~= self.register@.take(i as int));
            }
            if entry.mode == mode && starts_with(&entry.keys, &lookup) {
                count = count + 1;
            }
            if entry.mode == mode && same_keys(&entry.keys, &lookup) {
                exact = Some(i);
            }
            i = i + 1;
        }
        proof {
            assert(self.register@.take(i as int) =~= self.register@);
        }
        if count == 0 {
            self.lookup = Vec::new();
            return None;
        }
        if count == 1 {
            if let Some(x) = exact {
                self.lookup = Vec::new();
                return Some(x);
            }
        }
        self.lookup = lookup;
        None
    }

    /// Whether some binding of the mode starts with the pending inputs
    /// followed by `c`.
    fn binds_prefix(&self, c: KeyInput, mode: EditorMode) -> (b: bool)
        ensures
            b == (prefix_count(self.entries(), self.pending().push(c), mode) > 0),
    {
        let mut p: Vec<KeyInput> = self.lookup.clone();
        p.push(c);
        assert(p@ =~= self.pending().push(c));
        let mut count: usize = 0;
        let mut i: usize = 0;
        while i < self.register.len()
            invariant
                i <= self.register@.len(),
                p@ == self.pending().push(c),
                count == prefix_count(self.register@.take(i as int), p@, mode),
                count <= i,
            decreases self.register@.len() - i,
        {
            let entry = &self.register[i].0;
            proof {
                assert(self.register@.take(i + 1).drop_last() =~= self.register@.take(i as int));
            }
            if entry.mode == mode && starts_with(&entry.keys, &p) {
                count = count + 1;
            }
            i = i + 1;
        }
        proof {
            assert(self.register@.take(i as int) =~= self.register@);
        }
        count > 0
    }

    /// Takes a key input in a mode: returns a copy of the action bound to
    /// the completed sequence, if any.
    fn get(&mut self, c: KeyInput, mode: EditorMode) -> (r: Option<Action>)
        ensures
            final(self).entries() == old(self).entries(),
            final(self).captures_on_insert() == old(self).captures_on_insert(),
            final(self).pending() == lookup_step(old(self).entries(), old(self).pending(), c, mode).0,
            lookup_step(old(self).entries(), old(self).pending(), c, mode).1 matches Some(i) ==>
                r matches Some(a) && same_action(old(self).entries()[i].1, a),
            lookup_step(old(self).entries(), old(self).pending(), c, mode).1 is None ==> r is None,
    {
        match self.lookup_index(c, mode) {
            Some(i) => Some(self.register[i].1.duplicate()),
            None => None,
        }
    }
}

/// The character that a (normalized) input types in insert mode: a
/// character without modifiers or with Shift, or Tab without modifiers.
pub open spec fn typed_char(k: KeyInput) -> Option<char> {
    match k.key {
        KeyCode::Char(c) => if k.modifiers == no_modifiers() || k.modifiers == shift_modifier() { Some(c) } else { None },
        KeyCode::Tab => if k.modifiers == no_modifiers() { Some('\t') } else { None },
        _ => None,
    }
}

/// The character that a (normalized) input adds to the search pattern: a
/// character without modifiers.
pub open spec fn search_char(k: KeyInput) -> Option<char> {
    match k.key {
        KeyCode::Char(c) => if k.modifiers == no_modifiers() { Some(c) } else { None },
        _ => None,
    }
}

/// The state after typing `c` in insert mode: the state is saved for undo
/// first if `capture` holds; the character is inserted and added to the
/// text that the dot command replays.
pub open spec fn typed_effect(old: EditorState, new: EditorState, c: char, capture: bool) -> bool {
    exists|s1: EditorState, s2: EditorState| {
        &&& (if capture {
            s1 == (EditorState { undo: s1.undo, ..old }) && s1.undo.states() == captured(old)
        } else {
            s1 == old
        })
        &&& #[trigger] InsertChar(c).effect(s1, s2)
        &&& new == (EditorState { last_insert: new.last_insert, ..s2 })
        &&& s2.last_insert is None ==> new.last_insert is None
        &&& s2.last_insert matches Some(t) ==> new.last_insert matches Some(u) && u@ == t@.push(c)
    }
}

/// The input as the handler takes it: as it came where some binding of the
/// mode starts with the pending inputs followed by it (so that Alt+`<` can
/// be bound), else with AltGr normalized away.
pub open spec fn resolved_key(
    entries: Seq<(KeyEventRegister, Action)>,
    pending: Seq<KeyInput>,
    key: KeyInput,
    mode: EditorMode,
) -> KeyInput {
    if prefix_count(entries, pending.push(key), mode) > 0 { key } else { altgr_normalized(key) }
}

/// What a key input does to the state, given the handler's entries and
/// pending inputs before it: in insert mode a typed character is inserted;
/// in search mode a character joins the pattern; otherwise the input joins
/// the pending ones and a completed key sequence runs its action.
pub open spec fn key_effect(
    entries: Seq<(KeyEventRegister, Action)>,
    pending: Seq<KeyInput>,
    capture: bool,
    key: KeyInput,
    old: EditorState,
    new: EditorState,
) -> bool {
    let k = resolved_key(entries, pending, key, old.mode);
    if old.mode == EditorMode::Insert && typed_char(k) is Some {
        typed_effect(old, new, typed_char(k)->0, capture)
    } else if old.mode == EditorMode::Search && search_char(k) is Some {
        AppendToSearch(search_char(k)->0).effect(old, new)
    } else {
        match lookup_step(entries, pending, k, old.mode).1 {
            Some(i) => recorded_effect(entries[i].1, old, new),
            None => new == old,
        }
    }
}

/// Whether a (resolved) key input goes to the key sequence lookup.
pub open spec fn looked_up(k: KeyInput, mode: EditorMode) -> bool {
    !(mode == EditorMode::Insert && typed_char(k) is Some) && !(mode == EditorMode::Search && search_char(k) is Some)
}

impl KeyEventHandler {
    /// Handles a key input.
    pub fn on_event(&mut self, key: KeyInput, state: &mut EditorState)
        ensures
            key_effect(old(self).entries(), old(self).pending(), old(self).captures_on_insert(), key, *old(state), *final(state)),
            final(self).entries() == old(self).entries(),
            final(self).captures_on_insert() == old(self).captures_on_insert(),
            ({
                let k = resolved_key(old(self).entries(), old(self).pending(), key, old(state).mode);
                &&& looked_up(k, old(state).mode) ==>
                    final(self).pending() == lookup_step(old(self).entries(), old(self).pending(), k, old(state).mode).0
                &&& !looked_up(k, old(state).mode) ==> final(self).pending() == old(self).pending()
            }),
    {
        let mode = state.mode;
        let k = if self.binds_prefix(key, mode) { key } else { key.normalize_altgr() };
        if mode == EditorMode::Insert {
            let typed = match k.key {
                KeyCode::Char(c) => if k.modifiers == Modifiers::none() || k.modifiers == Modifiers::shift() { Some(c) } else { None },
                KeyCode::Tab => if k.modifiers == Modifiers::none() { Some('\t') } else { None },
                _ => None,
            };
            if let Some(c) = typed {
                if self.capture_on_insert {
                    state.capture();
                }
                let ghost s1 = *state;
                InsertChar(c).execute(state);
                let ghost s2 = *state;
                state.record_typed(c);
                assert(InsertChar(c).effect(s1, s2));
                return;
            }
        }
        if mode == EditorMode::Search {
            if let KeyCode::Char(c) = k.key {
                if k.modifiers == Modifiers::none() {
                    AppendToSearch(c).execute(state);
                    return;
                }
            }
        }
        if let Some(i) = self.lookup_index(k, mode) {
            state.execute_recorded(&self.register[i].1);
        }
    }
}

impl KeyEventHandler {
    /// A handler with the Vim-like key map.
    pub fn vim_mode() -> (h: Self)
        ensures
            exists|v: Seq<(KeyEventRegister, Action)>| #[trigger] matches_table(v, vim_table()) && h.bindings() == to_map(v),
            vim_plain_keys_bound(h.bindings()),
            vim_more_keys_bound(h.bindings()),
            h.pending() == Seq::<KeyInput>::empty(),
            !h.captures_on_insert(),
    {
        let bindings = vim_keybindings();
        let ghost v = bindings@;
        let h = Self::new(bindings, false);
        assert(matches_table(v, vim_table()));
        h
    }

    /// A handler with the Emacs-like key map, in which every typed character
    /// saves the state for undo.
    pub fn emacs_mode() -> (h: Self)
        ensures
            exists|v: Seq<(KeyEventRegister, Action)>| #[trigger] matches_table(v, emacs_table()) && h.bindings() == to_map(v),
            emacs_keys_bound(h.bindings()),
            h.pending() == Seq::<KeyInput>::empty(),
            h.captures_on_insert(),
    {
        let bindings = emacs_keybindings();
        let ghost v = bindings@;
        let h = Self::new(bindings, true);
        assert(matches_table(v, emacs_table()));
        h
    }
}

impl Default for KeyEventHandler {
    /// The Vim-like key map.
    fn default() -> (h: Self)
        ensures
            exists|v: Seq<(KeyEventRegister, Action)>| #[trigger] matches_table(v, vim_table()) && h.bindings() == to_map(v),
            vim_plain_keys_bound(h.bindings()),
            vim_more_keys_bound(h.bindings()),
            h.pending() == Seq::<KeyInput>::empty(),
            !h.captures_on_insert(),
    {
        Self::vim_mode()
    }
}

} // verus!
