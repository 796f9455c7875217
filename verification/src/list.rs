use vstd::prelude::*;

verus! {

/// An ordered sequence of entries with a single optional cursor that moves
/// cyclically: advancing past the last index wraps to the first, and
/// retreating before the first wraps to the last.
pub struct SelectableList<T> {
    pub items: Vec<T>,
    pub selected: Option<usize>,
}

/// Where the cursor stands after one forward step on a list of `len` entries:
/// an absent cursor selects the first entry, the last entry wraps to the
/// first, and on an empty list the cursor stays absent.
pub open spec fn step_forward(len: int, sel: Option<int>) -> Option<int> {
    if len <= 0 {
        None
    } else {
        match sel {
            None => Some(0int),
            Some(i) => Some(if i + 1 >= len { 0int } else { i + 1 }),
        }
    }
}

/// Where the cursor stands after one backward step on a list of `len`
/// entries: an absent cursor selects the first entry, the first entry wraps
/// to the last, and on an empty list the cursor stays absent.
pub open spec fn step_backward(len: int, sel: Option<int>) -> Option<int> {
    if len <= 0 {
        None
    } else {
        match sel {
            None => Some(0int),
            Some(i) => Some(if i == 0 { len - 1 } else { i - 1 }),
        }
    }
}

/// The cursor after `n` forward steps on a list of `len` entries.
pub open spec fn step_forward_n(len: int, sel: Option<int>, n: nat) -> Option<int>
    decreases n,
{
    if n == 0 {
        sel
    } else {
        step_forward(len, step_forward_n(len, sel, (n - 1) as nat))
    }
}

impl<T> SelectableList<T> {
    /// The cursor, if any, as a mathematical index.
    pub open spec fn sel(&self) -> Option<int> {
        match self.selected {
            None => None,
            Some(i) => Some(i as int),
        }
    }

    /// The cursor, when present, points inside the list.
    pub open spec fn wf(&self) -> bool {
        match self.selected {
            None => true,
            Some(i) => (i as int) < self.items@.len(),
        }
    }

    /// Builds a list over the given entries with no selection.
    pub fn with_items(items: Vec<T>) -> (r: SelectableList<T>)
        ensures
            r.items == items,
            r.selected is None,
            r.wf(),
    {
        SelectableList { items, selected: None }
    }

    /// Moves the cursor one position forward, wrapping past the last entry.
    pub fn advance(&mut self)
        requires
            old(self).wf(),
        ensures
            final(self).items == old(self).items,
            final(self).sel() == step_forward(old(self).items@.len() as int, old(self).sel()),
            final(self).wf(),
    {
        let len = self.items.len();
        let moved: Option<usize> = match self.selected {
            Some(i) => Some(if i + 1 >= len { 0 } else { i + 1 }),
            None => if len > 0 { Some(0) } else { None },
        };
        self.selected = moved;
    }

    /// Moves the cursor one position backward, wrapping before the first
    /// entry.
    pub fn retreat(&mut self)
        requires
            old(self).wf(),
        ensures
            final(self).items == old(self).items,
            final(self).sel() == step_backward(old(self).items@.len() as int, old(self).sel()),
            final(self).wf(),
    {
        let len = self.items.len();
        let moved: Option<usize> = match self.selected {
            Some(i) => Some(if i == 0 { len - 1 } else { i - 1 }),
            None => if len > 0 { Some(0) } else { None },
        };
        self.selected = moved;
    }
}

/// Law: on a non-empty list, exactly `len` forward steps bring the cursor
/// back to where it started, and no smaller positive number of steps does.
pub proof fn lemma_advance_cycle(len: int, i: int)
    requires
        0 <= i < len,
    ensures
        step_forward_n(len, Some(i), len as nat) == Some(i),
        forall|n: nat| 0 < n < len ==> step_forward_n(len, Some(i), n) != Some(i),
{
    lemma_step_forward_n_formula(len, i, len as nat);
    assert forall|n: nat| 0 < n < len implies step_forward_n(len, Some(i), n) != Some(i) by {
        lemma_step_forward_n_formula(len, i, n);
    }
}

proof fn lemma_step_forward_n_formula(len: int, i: int, n: nat)
    requires
        0 <= i < len,
        n <= len,
    ensures
        step_forward_n(len, Some(i), n) == Some(if i + n < len { i + n } else { i + n - len }),
    decreases n,
{
    if n > 0 {
        lemma_step_forward_n_formula(len, i, (n - 1) as nat);
    }
}

/// Law: on a single-entry list, a step in either direction leaves the cursor
/// on the only entry, index 0.
pub proof fn lemma_single_entry_stationary()
    ensures
        step_forward(1, Some(0int)) == Some(0int),
        step_backward(1, Some(0int)) == Some(0int),
{
}

} // verus!
