//! The selection cursor of a displayed list.
//!
//! A cursor is one optional index plus the arithmetic that moves it: down
//! wraps from the last row to the first, up wraps from the first row to
//! the last, and on an empty list there is never a selection.  The session
//! owns one cursor per list and reads the live row count from the store
//! before every move.

use vstd::prelude::*;

verus! {

/// Where a step lands: on an empty list there is no selection; an unseeded
/// cursor stays unseeded (the renderer seeds it on first display); from
/// the last row, down wraps to the first.
pub open spec fn spec_down(sel: Option<int>, n: int) -> Option<int> {
    if n == 0 {
        None
    } else {
        match sel {
            None => None,
            Some(i) => Some(if i >= n - 1 { 0int } else { i + 1 }),
        }
    }
}

/// The mirror step: from the first row, up wraps to the last.
pub open spec fn spec_up(sel: Option<int>, n: int) -> Option<int> {
    if n == 0 {
        None
    } else {
        match sel {
            None => None,
            Some(i) => Some(if i > 0 { i - 1 } else { n - 1 }),
        }
    }
}

/// [`spec_down`] applied `k` times over a list of `n` rows.
pub open spec fn down_times(sel: Option<int>, n: int, k: nat) -> Option<int>
    decreases k,
{
    if k == 0 {
        sel
    } else {
        spec_down(down_times(sel, n, (k - 1) as nat), n)
    }
}

/// Tracks which row of a displayed list is active.
pub struct SelectionCursor {
    /// The active row, `None` while nothing is (or can be) selected.
    pub selected: Option<usize>,
}

impl View for SelectionCursor {
    type V = Option<int>;

    open spec fn view(&self) -> Option<int> {
        match self.selected {
            Some(i) => Some(i as int),
            None => None,
        }
    }
}

impl SelectionCursor {
    /// A fresh cursor: nothing selected.
    pub fn new() -> (c: SelectionCursor)
        ensures
            c@ is None,
    {
        SelectionCursor { selected: None }
    }

    /// The selected index, if any.
    pub fn selected(&self) -> (r: Option<usize>)
        ensures
            match r {
                Some(i) => self@ == Some(i as int),
                None => self@ is None,
            },
    {
        self.selected
    }

    /// Seed the cursor for first display: an unseeded cursor lands on the
    /// first row, a seeded one stays put.
    pub fn seed(&mut self)
        ensures
            final(self)@ == if old(self)@ is None {
                Some(0int)
            } else {
                old(self)@
            },
    {
        if self.selected.is_none() {
            self.selected = Some(0);
        }
    }

    /// Move one row down through a list that currently holds
    /// `current_count` rows, wrapping from the last row to the first; on
    /// an empty list the selection is gone.
    pub fn select_down(&mut self, current_count: usize)
        ensures
            final(self)@ == spec_down(old(self)@, current_count as int),
    {
        if current_count == 0 {
            self.selected = None;
        } else if let Some(i) = self.selected {
            if i >= current_count - 1 {
                self.selected = Some(0);
            } else {
                self.selected = Some(i + 1);
            }
        }
    }

    /// Move one row up, wrapping from the first row to the last; on an
    /// empty list the selection is gone.
    pub fn select_up(&mut self, current_count: usize)
        ensures
            final(self)@ == spec_up(old(self)@, current_count as int),
    {
        if current_count == 0 {
            self.selected = None;
        } else if let Some(i) = self.selected {
            if i > 0 {
                self.selected = Some(i - 1);
            } else {
                self.selected = Some(current_count - 1);
            }
        }
    }
}

/// After `k` downward steps over `n` rows, a cursor that started on row
/// `sel` stands on row `(sel + k) % n`.
proof fn lemma_down_times_mod(sel: int, n: int, k: nat)
    requires
        0 <= sel < n,
    ensures
        down_times(Some(sel), n, k) == Some((sel + k) % n),
    decreases k,
{
    if k == 0 {
        vstd::arithmetic::div_mod::lemma_small_mod(sel as nat, n as nat);
    } else {
        lemma_down_times_mod(sel, n, (k - 1) as nat);
        let j = (sel + k - 1) % n;
        vstd::arithmetic::div_mod::lemma_mod_bound(sel + k - 1, n);
        vstd::arithmetic::div_mod::lemma_add_mod_noop(sel + k - 1, 1, n);
        if 1 < n {
            vstd::arithmetic::div_mod::lemma_small_mod(1, n as nat);
        } else {
            vstd::arithmetic::div_mod::lemma_mod_self_0(n);
        }
        if j >= n - 1 {
            vstd::arithmetic::div_mod::lemma_mod_self_0(n);
            assert((j + 1) % n == 0) by {
                vstd::arithmetic::div_mod::lemma_add_mod_noop(j, 1, n);
                vstd::arithmetic::div_mod::lemma_small_mod(j as nat, n as nat);
            }
        } else {
            vstd::arithmetic::div_mod::lemma_small_mod((j + 1) as nat, n as nat);
            assert((j + 1) % n == j + 1);
        }
        assert((sel + k) % n == (j + 1) % n) by {
            vstd::arithmetic::div_mod::lemma_add_mod_noop(sel + k - 1, 1, n);
            vstd::arithmetic::div_mod::lemma_small_mod(j as nat, n as nat);
        }
    }
}

/// The cursor is cyclic: over a list of `n > 0` rows, `n` downward steps
/// bring it back to where it started, and one upward step from the first
/// row lands on the last.
pub proof fn lemma_cursor_cycles(sel: int, n: int)
    requires
        0 <= sel < n,
    ensures
        down_times(Some(sel), n, n as nat) == Some(sel),
        spec_up(Some(0), n) == Some(n - 1),
{
    lemma_down_times_mod(sel, n, n as nat);
    vstd::arithmetic::div_mod::lemma_add_mod_noop(sel, n, n);
    vstd::arithmetic::div_mod::lemma_mod_self_0(n);
    vstd::arithmetic::div_mod::lemma_small_mod(sel as nat, n as nat);
}

/// On an empty list a move never selects anything: there is no row to
/// select, and the operations return "no selection" rather than fail.
pub proof fn lemma_empty_list_no_selection(sel: Option<int>)
    ensures
        spec_down(sel, 0) is None,
        spec_up(sel, 0) is None,
{
}

} // verus!
