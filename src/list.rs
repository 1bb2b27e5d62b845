use vstd::arithmetic::div_mod::{lemma_fundamental_div_mod, lemma_fundamental_div_mod_converse_mod};
use vstd::prelude::*;

verus! {

/// The selection after moving forward in a list of `len` items: the first
/// item when nothing is selected, wrapping to the first after the last.
/// An empty list keeps its selection.
pub open spec fn next_index(sel: Option<int>, len: int) -> Option<int> {
    if len <= 0 {
        sel
    } else {
        match sel {
            None => Some(0),
            Some(i) => if i + 1 >= len { Some(0) } else { Some(i + 1) },
        }
    }
}

/// The selection after moving backward in a list of `len` items: the first
/// item when nothing is selected, wrapping to the last before the first.
/// An empty list keeps its selection.
pub open spec fn previous_index(sel: Option<int>, len: int) -> Option<int> {
    if len <= 0 {
        sel
    } else {
        match sel {
            None => Some(0),
            Some(i) => if i == 0 { Some(len - 1) } else { Some(i - 1) },
        }
    }
}

/// The selection after `k` forward moves.
pub open spec fn next_times(sel: Option<int>, len: int, k: nat) -> Option<int>
    decreases k,
{
    if k == 0 {
        sel
    } else {
        next_index(next_times(sel, len, (k - 1) as nat), len)
    }
}

/// The selection after `k` backward moves.
pub open spec fn previous_times(sel: Option<int>, len: int, k: nat) -> Option<int>
    decreases k,
{
    if k == 0 {
        sel
    } else {
        previous_index(previous_times(sel, len, (k - 1) as nat), len)
    }
}

proof fn lemma_mod_step(k: int, n: int)
    requires
        0 <= k,
        0 < n,
    ensures
        0 <= k % n < n,
        (k + 1) % n == if k % n + 1 < n { k % n + 1 } else { 0 },
{
    lemma_fundamental_div_mod(k, n);
    let q = k / n;
    let r = k % n;
    assert(k == q * n + r) by (nonlinear_arith)
        requires
            k == n * q + r,
    ;
    lemma_fundamental_div_mod_converse_mod(k, n, q, r);
    if r + 1 < n {
        lemma_fundamental_div_mod_converse_mod(k + 1, n, q, r + 1);
    } else {
        assert(k + 1 == (q + 1) * n + 0) by (nonlinear_arith)
            requires
                k == q * n + r,
                r + 1 == n,
        ;
        lemma_fundamental_div_mod_converse_mod(k + 1, n, q + 1, 0);
    }
}

/// Starting with nothing selected, moving forward `k + 1` times in a list of
/// `n` items selects item `k mod n`: the selection runs through every item
/// in order and comes back to the first after `n` further moves.
pub proof fn lemma_next_cycles(n: int, k: nat)
    requires
        n > 0,
    ensures
        next_times(None, n, k + 1) == Some((k as int) % n),
    decreases k,
{
    lemma_mod_step(k as int, n);
    if k > 0 {
        lemma_next_cycles(n, (k - 1) as nat);
        lemma_mod_step(k - 1, n);
        assert(next_times(None, n, k) == Some((k - 1) % n));
        assert(next_times(None, n, k + 1) == next_index(next_times(None, n, k), n));
    } else {
        assert(0int % n == 0) by {
            lemma_fundamental_div_mod_converse_mod(0, n, 0, 0);
        }
    }
}

/// Starting with nothing selected, moving backward `k + 1` times in a list of
/// `n` items selects item `(n - k mod n) mod n`: the first item, then the
/// last, and so on down to the first again after `n` further moves.
pub proof fn lemma_previous_cycles(n: int, k: nat)
    requires
        n > 0,
    ensures
        previous_times(None, n, k + 1) == Some((n - (k as int) % n) % n),
    decreases k,
{
    lemma_mod_step(k as int, n);
    lemma_fundamental_div_mod_converse_mod(n, n, 1, 0);
    if k > 0 {
        lemma_previous_cycles(n, (k - 1) as nat);
        lemma_mod_step(k - 1, n);
        let r = (k - 1) % n;
        assert(previous_times(None, n, k) == Some((n - r) % n));
        assert(previous_times(None, n, k + 1) == previous_index(previous_times(None, n, k), n));
        if 0 < r {
            lemma_fundamental_div_mod_converse_mod(n - r, n, 0, n - r);
        }
        if r + 1 < n {
            lemma_fundamental_div_mod_converse_mod(n - r - 1, n, 0, n - r - 1);
        }
    } else {
        lemma_fundamental_div_mod_converse_mod(0, n, 0, 0);
    }
}

/// A fixed list of items with at most one of them selected.
pub struct StatefulList<T> {
    pub items: Vec<T>,
    pub selected: Option<usize>,
}

pub open spec fn index_view(sel: Option<usize>) -> Option<int> {
    match sel {
        Some(i) => Some(i as int),
        None => None,
    }
}

impl<T> StatefulList<T> {
    /// The selection, if any, points at an item.
    pub open spec fn wf(&self) -> bool {
        match self.selected {
            Some(i) => i < self.items@.len(),
            None => true,
        }
    }

    pub open spec fn selection(&self) -> Option<int> {
        index_view(self.selected)
    }

    /// A list of `items` with nothing selected.
    pub fn with_items(items: Vec<T>) -> (r: StatefulList<T>)
        ensures
            r.items@ == items@,
            r.selected is None,
            r.wf(),
    {
        StatefulList { items, selected: None }
    }

    /// Selects the next item, wrapping to the first after the last.
    pub fn next(&mut self)
        ensures
            final(self).items@ == old(self).items@,
            final(self).selection() == next_index(old(self).selection(), old(self).items@.len() as int),
            old(self).items@.len() > 0 ==> final(self).wf(),
    {
        let len = self.items.len();
        if len == 0 {
            return ;
        }
        let i = match self.selected {
            Some(i) => {
                if i >= len - 1 {
                    0
                } else {
                    i + 1
                }
            },
            None => 0,
        };
        self.selected = Some(i);
    }

    /// Selects the previous item, wrapping to the last before the first.
    pub fn previous(&mut self)
        ensures
            final(self).items@ == old(self).items@,
            final(self).selection() == previous_index(old(self).selection(), old(self).items@.len() as int),
            old(self).wf() ==> final(self).wf(),
    {
        let len = self.items.len();
        if len == 0 {
            return ;
        }
        let i = match self.selected {
            Some(i) => {
                if i == 0 {
                    len - 1
                } else {
                    i - 1
                }
            },
            None => 0,
        };
        self.selected = Some(i);
    }

    /// Clears the selection.
    pub fn unselect(&mut self)
        ensures
            final(self).items@ == old(self).items@,
            final(self).selected is None,
            final(self).wf(),
    {
        self.selected = None;
    }

    /// The selected position, if any.
    pub fn selected(&self) -> (r: Option<usize>)
        ensures
            r == self.selected,
    {
        self.selected
    }
}

} // verus!
