//! A single-selection cursor over an ordered list, moving with wrap-around.

use vstd::prelude::*;

verus! {

/// The index that follows `current` in a list of `len` items.
///
/// An empty list has no selection. With nothing selected the first item is
/// taken; from the last item (or from beyond it) the cursor wraps to the first.
pub open spec fn next_index(current: Option<nat>, len: nat) -> Option<nat> {
    if len == 0 {
        None
    } else {
        match current {
            None => Some(0),
            Some(i) => if i + 1 >= len {
                Some(0)
            } else {
                Some(i + 1)
            },
        }
    }
}

/// The index that precedes `current` in a list of `len` items.
///
/// An empty list has no selection. With nothing selected the first item is
/// taken; from the first item the cursor wraps to the last.
pub open spec fn previous_index(current: Option<nat>, len: nat) -> Option<nat> {
    if len == 0 {
        None
    } else {
        match current {
            None => Some(0),
            Some(i) => if i == 0 {
                Some((len - 1) as nat)
            } else {
                Some((i - 1) as nat)
            },
        }
    }
}

/// The selection a freshly built list of `len` items starts with: its first
/// item, or nothing when it is empty.
pub open spec fn first_index(len: nat) -> Option<nat> {
    if len == 0 {
        None
    } else {
        Some(0)
    }
}

/// Whether `current` is a selection that a list of `len` items can have:
/// nothing exactly when the list is empty, else an index inside it.
pub open spec fn fits(current: Option<nat>, len: nat) -> bool {
    match current {
        None => len == 0,
        Some(i) => i < len,
    }
}

/// The cursor of a selectable list: the selected index, if any.
#[derive(Clone, Copy, Debug, PartialEq, Eq)]
pub struct Selection {
    pub index: Option<usize>,
}

impl View for Selection {
    type V = Option<nat>;

    open spec fn view(&self) -> Option<nat> {
        match self.index {
            None => None,
            Some(i) => Some(i as nat),
        }
    }
}

impl Selection {
    /// A cursor with nothing selected.
    pub fn new() -> (s: Selection)
        ensures
            s@ == None::<nat>,
    {
        Selection { index: None }
    }

    /// The cursor of a freshly built list of `len` items.
    pub fn first(len: usize) -> (s: Selection)
        ensures
            s@ == first_index(len as nat),
            fits(s@, len as nat),
    {
        if len == 0 {
            Selection { index: None }
        } else {
            Selection { index: Some(0) }
        }
    }

    /// The selected index, if any.
    pub fn selected(&self) -> (index: Option<usize>)
        ensures
            index == self.index,
    {
        self.index
    }

    /// Replaces the selection.
    pub fn select(&mut self, index: Option<usize>)
        ensures
            final(self).index == index,
    {
        self.index = index;
    }

    /// Advances the cursor by one item of a list of `len` items, wrapping
    /// from the last item to the first.
    pub fn select_next(&mut self, len: usize)
        ensures
            final(self)@ == next_index(old(self)@, len as nat),
            len == 0 ==> final(self)@ is None,
            len > 0 ==> fits(final(self)@, len as nat),
    {
        if len == 0 {
            self.index = None;
        } else {
            let next: usize = match self.index {
                None => 0,
                Some(i) => if i >= len - 1 {
                    0
                } else {
                    i + 1
                },
            };
            self.index = Some(next);
        }
    }

    /// Moves the cursor back by one item of a list of `len` items, wrapping
    /// from the first item to the last.
    pub fn select_previous(&mut self, len: usize)
        ensures
            final(self)@ == previous_index(old(self)@, len as nat),
            len == 0 ==> final(self)@ is None,
            len > 0 && fits(old(self)@, len as nat) ==> fits(final(self)@, len as nat),
    {
        if len == 0 {
            self.index = None;
        } else {
            let previous: usize = match self.index {
                None => 0,
                Some(i) => if i == 0 {
                    len - 1
                } else {
                    i - 1
                },
            };
            self.index = Some(previous);
        }
    }
}

/// Moving forward and then back returns to the starting item, as long as the
/// list keeps its length between the two moves.
pub proof fn lemma_next_then_previous(i: nat, len: nat)
    requires
        i < len,
    ensures
        previous_index(next_index(Some(i), len), len) == Some(i),
{
}

/// Moving back and then forward returns to the starting item, as long as the
/// list keeps its length between the two moves.
pub proof fn lemma_previous_then_next(i: nat, len: nat)
    requires
        i < len,
    ensures
        next_index(previous_index(Some(i), len), len) == Some(i),
{
}

/// Inside the list both moves are steps of one, taken modulo the list's length.
pub proof fn lemma_moves_are_modular(i: nat, len: nat)
    requires
        i < len,
    ensures
        next_index(Some(i), len) == Some(((i as int + 1) % (len as int)) as nat),
        previous_index(Some(i), len) == Some(((i as int + len as int - 1) % (len as int)) as nat),
{
    let a: int = i as int;
    let n: int = len as int;
    if a + 1 < n {
        assert((a + 1) % n == a + 1) by (nonlinear_arith)
            requires
                0 <= a + 1 < n,
        ;
    } else {
        assert((a + 1) % n == 0) by (nonlinear_arith)
            requires
                a + 1 == n,
                n > 0,
        ;
    }
    if a == 0 {
        assert((a + n - 1) % n == n - 1) by (nonlinear_arith)
            requires
                a == 0,
                n > 0,
        ;
    } else {
        assert((a + n - 1) % n == a - 1) by (nonlinear_arith)
            requires
                0 < a < n,
        ;
    }
}

/// On an empty list neither move selects anything, whatever was selected.
pub proof fn lemma_empty_list_selects_nothing(current: Option<nat>)
    ensures
        next_index(current, 0) is None,
        previous_index(current, 0) is None,
{
}

/// Both moves keep a selection that fits the list inside the list.
pub proof fn lemma_moves_stay_inside(current: Option<nat>, len: nat)
    requires
        fits(current, len),
    ensures
        fits(next_index(current, len), len),
        fits(previous_index(current, len), len),
{
}

} // verus!
