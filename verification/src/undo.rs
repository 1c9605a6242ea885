//! Undo and redo: stacks of earlier buffer contents and cursor positions.
use vstd::prelude::*;
use crate::index::Index2;
use crate::lines::{Lines, rows};

verus! {

/// The most states that an undo or redo stack keeps.
pub const MAX_UNDO_STATES: usize = 100;

/// A saved buffer and cursor.
pub struct UndoState {
    pub lines: Lines,
    pub cursor: Index2,
}

impl UndoState {
    /// The rows and the cursor that the state saves.
    pub open spec fn view(&self) -> (Seq<Seq<char>>, Index2) {
        (rows(self.lines), self.cursor)
    }
}

/// Pushes onto a bounded stack: when it grows beyond `max`, its oldest
/// entry is dropped.
pub open spec fn push_bounded<A>(s: Seq<A>, x: A, max: int) -> Seq<A> {
    if s.len() + 1 > max { s.push(x).remove(0) } else { s.push(x) }
}

/// A bounded stack of saved states.
pub struct Stack {
    inner: Vec<UndoState>,
    max_size: usize,
}

impl Stack {
    /// The saved states, the most recent last.
    pub closed spec fn states(&self) -> Seq<(Seq<Seq<char>>, Index2)> {
        Seq::new(self.inner@.len(), |i: int| self.inner@[i].view())
    }

    /// The stack keeps at most [`MAX_UNDO_STATES`] states.
    #[verifier::type_invariant]
    spec fn inv(&self) -> bool {
        self.max_size == MAX_UNDO_STATES && self.inner@.len() <= MAX_UNDO_STATES
    }

    /// An empty stack.
    pub fn new() -> (s: Self)
        ensures
            s.states() == Seq::<(Seq<Seq<char>>, Index2)>::empty(),
    {
        let s = Stack { inner: Vec::new(), max_size: MAX_UNDO_STATES };
        assert(s.states() =~= Seq::<(Seq<Seq<char>>, Index2)>::empty());
        s
    }

    /// Removes and returns the most recent state.
    pub fn pop(&mut self) -> (r: Option<UndoState>)
        ensures
            old(self).states().len() == 0 ==> r is None && final(self).states() == old(self).states(),
            old(self).states().len() > 0 ==> r is Some && r->0.view() == old(self).states().last()
                && final(self).states() == old(self).states().drop_last(),
    {
        proof {
            use_type_invariant(&*self);
        }
        let mut inner: Vec<UndoState> = Vec::new();
        std::mem::swap(&mut inner, &mut self.inner);
        let r = inner.pop();
        self.inner = inner;
        assert(self.states() =~= old(self).states().take(self.inner@.len() as int));
        r
    }

    /// Pushes a state; when the stack grows beyond its bound, the oldest
    /// state is dropped.
    pub fn push(&mut self, value: UndoState)
        ensures
            final(self).states() == push_bounded(old(self).states(), value.view(), MAX_UNDO_STATES as int),
    {
        proof {
            use_type_invariant(&*self);
        }
        let ghost v = value.view();
        let mut inner: Vec<UndoState> = Vec::new();
        std::mem::swap(&mut inner, &mut self.inner);
        inner.push(value);
        assert(inner@.len() <= MAX_UNDO_STATES + 1);
        if inner.len() > MAX_UNDO_STATES {
            inner.remove(0);
        }
        self.inner = inner;
        proof {
            if old(self).inner@.len() + 1 > MAX_UNDO_STATES {
                assert(self.states() =~= old(self).states().push(v).remove(0));
            } else {
                assert(self.states() =~= old(self).states().push(v));
            }
        }
    }

    /// The number of saved states.
    pub fn len(&self) -> (n: usize)
        ensures
            n == self.states().len(),
    {
        self.inner.len()
    }
}

} // verus!
