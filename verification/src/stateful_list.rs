//! Selection state shared by every panel: a cursor over a vector of items
//! (`StatefulList`) and a cyclic cursor over a row of tab titles
//! (`TabsState`).

use vstd::prelude::*;

verus! {

/// Cursor state of one list: the first visible index and the selection.
pub struct ListState {
    pub offset: usize,
    pub selected: Option<usize>,
}

impl Default for ListState {
    fn default() -> (r: ListState)
        ensures
            r.offset == 0,
            r.selected is None,
    {
        ListState { offset: 0, selected: None }
    }
}

impl ListState {
    pub fn selected(&self) -> (r: Option<usize>)
        ensures
            r == self.selected,
    {
        self.selected
    }

    pub fn select(&mut self, index: Option<usize>)
        ensures
            final(self).selected == index,
            final(self).offset == (if index is None { 0usize } else { old(self).offset }),
    {
        self.selected = index;
        if index.is_none() {
            self.offset = 0;
        }
    }
}

/// Where the selection moves on one step down, with wraparound.
pub open spec fn next_index(sel: Option<usize>, len: nat) -> nat
    recommends
        len > 0,
{
    match sel {
        Some(i) => if i + 1 >= len { 0 } else { (i + 1) as nat },
        None => 0,
    }
}

/// Where the selection moves on one step up, with wraparound.
pub open spec fn prev_index(sel: Option<usize>, len: nat) -> nat
    recommends
        len > 0,
{
    match sel {
        Some(i) => if i == 0 { (len - 1) as nat } else { (i - 1) as nat },
        None => 0,
    }
}

/// `next_index` iterated `k` times from a concrete selection.
pub open spec fn next_index_iter(sel: nat, len: nat, k: nat) -> nat
    recommends
        len > 0,
    decreases k,
{
    if k == 0 {
        sel
    } else {
        let p = next_index_iter(sel, len, (k - 1) as nat);
        if p + 1 >= len {
            0
        } else {
            p + 1
        }
    }
}

/// A list of items together with a selection cursor and viewport offset.
pub struct StatefulList<T> {
    pub state: ListState,
    pub items: Vec<T>,
}

impl<T> StatefulList<T> {
    /// The selection is a valid index whenever the list is non-empty;
    /// an empty list tolerates the placeholder selection `Some(0)`.
    pub open spec fn wf(&self) -> bool {
        match self.state.selected {
            Some(i) => if self.items.len() > 0 {
                i < self.items.len()
            } else {
                i == 0
            },
            None => true,
        }
    }

    pub fn new() -> (r: StatefulList<T>)
        ensures
            r.items@ == Seq::<T>::empty(),
            r.state.selected is None,
            r.state.offset == 0,
            r.wf(),
    {
        StatefulList { state: ListState::default(), items: Vec::new() }
    }

    pub fn with_items(items: Vec<T>) -> (r: StatefulList<T>)
        ensures
            r.items == items,
            r.state.selected is None,
            r.state.offset == 0,
            r.wf(),
    {
        StatefulList { state: ListState::default(), items }
    }

    /// Moves the selection one step down, wrapping to the top;
    /// a no-op on an empty list.
    pub fn next(&mut self)
        requires
            old(self).wf(),
        ensures
            final(self).wf(),
            final(self).items == old(self).items,
            final(self).state.offset == old(self).state.offset,
            old(self).items.len() == 0 ==> *final(self) == *old(self),
            old(self).items.len() > 0 ==> final(self).state.selected == Some(
                next_index(old(self).state.selected, old(self).items.len() as nat) as usize,
            ),
    {
        if self.items.len() == 0 {
            return;
        }
        let i: usize = match self.state.selected() {
            Some(i) => {
                if i >= self.items.len() - 1 {
                    0
                } else {
                    i + 1
                }
            },
            None => 0,
        };
        self.state.select(Some(i));
    }

    /// Moves the selection one step up, wrapping to the bottom;
    /// a no-op on an empty list.
    pub fn previous(&mut self)
        requires
            old(self).wf(),
        ensures
            final(self).wf(),
            final(self).items == old(self).items,
            final(self).state.offset == old(self).state.offset,
            old(self).items.len() == 0 ==> *final(self) == *old(self),
            old(self).items.len() > 0 ==> final(self).state.selected == Some(
                prev_index(old(self).state.selected, old(self).items.len() as nat) as usize,
            ),
    {
        if self.items.len() == 0 {
            return;
        }
        let i: usize = match self.state.selected() {
            Some(i) => {
                if i == 0 {
                    self.items.len() - 1
                } else {
                    i - 1
                }
            },
            None => 0,
        };
        self.state.select(Some(i));
    }

    pub fn unselect(&mut self)
        ensures
            final(self).items == old(self).items,
            final(self).state.selected is None,
            final(self).state.offset == 0,
            final(self).wf(),
    {
        self.state.select(None);
    }
}

/// One iteration step is exactly the move `next` makes.
pub proof fn lemma_iter_step_is_next_index(i: nat, len: nat)
    requires
        len > 0,
        i < len,
        len <= usize::MAX,
    ensures
        next_index_iter(i, len, 1) == next_index(Some(i as usize), len),
{
    assert(next_index_iter(i, len, 0) == i);
    assert((i as usize) as nat == i);
}

/// Stepping down `len` times from any valid selection returns to it:
/// the moves form a cycle of length `len`.
pub proof fn lemma_next_full_cycle(sel: nat, len: nat)
    requires
        len > 0,
        sel < len,
    ensures
        next_index_iter(sel, len, len) == sel,
{
    lemma_next_iter_no_wrap(sel, len, (len - 1 - sel) as nat);
    assert(next_index_iter(sel, len, (len - sel) as nat) == 0);
    lemma_next_iter_compose(sel, len, (len - sel) as nat, sel);
    lemma_next_iter_no_wrap(0, len, sel);
}

/// While the selection stays short of the last index, each step adds one.
proof fn lemma_next_iter_no_wrap(sel: nat, len: nat, k: nat)
    requires
        len > 0,
        sel + k < len,
    ensures
        next_index_iter(sel, len, k) == sel + k,
    decreases k,
{
    if k > 0 {
        lemma_next_iter_no_wrap(sel, len, (k - 1) as nat);
    }
}

/// Iterating `a + b` steps is iterating `a`, then `b`.
proof fn lemma_next_iter_compose(sel: nat, len: nat, a: nat, b: nat)
    requires
        len > 0,
    ensures
        next_index_iter(sel, len, a + b) == next_index_iter(next_index_iter(sel, len, a), len, b),
    decreases b,
{
    if b > 0 {
        lemma_next_iter_compose(sel, len, a, (b - 1) as nat);
    }
}

/// Cyclic cursor over the playbar's tab titles.
pub struct TabsState<'a> {
    pub titles: Vec<&'a str>,
    pub index: usize,
}

impl<'a> TabsState<'a> {
    pub fn new(titles: Vec<&'a str>) -> (r: TabsState<'a>)
        ensures
            r.titles == titles,
            r.index == 0,
    {
        TabsState { titles, index: 0 }
    }

    pub fn next(&mut self)
        requires
            old(self).titles.len() > 0,
            old(self).index < usize::MAX,
        ensures
            final(self).titles == old(self).titles,
            final(self).index == (old(self).index + 1) % (old(self).titles.len() as int),
    {
        self.index = (self.index + 1) % self.titles.len();
    }

    pub fn previous(&mut self)
        requires
            old(self).titles.len() > 0,
        ensures
            final(self).titles == old(self).titles,
            final(self).index == (if old(self).index > 0 {
                old(self).index - 1
            } else {
                old(self).titles.len() - 1
            }),
    {
        if self.index > 0 {
            self.index -= 1;
        } else {
            self.index = self.titles.len() - 1;
        }
    }
}

} // verus!
