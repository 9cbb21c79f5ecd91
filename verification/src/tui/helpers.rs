//! A list with a movable selection.
use vstd::prelude::*;

verus! {

/// Items with an optional selected index.
#[derive(Debug, Clone)]
pub struct SelectableList<T> {
    pub selected: Option<usize>,
    pub items: Vec<T>,
}

/// The index after `i` in a list of `len` items, wrapping to the start.
pub open spec fn wrap_next(i: Option<usize>, len: nat) -> usize {
    match i {
        Some(i) => if i >= len - 1 {
            0
        } else {
            (i + 1) as usize
        },
        None => 0,
    }
}

/// The index before `i` in a list of `len` items, wrapping to the end.
pub open spec fn wrap_previous(i: Option<usize>, len: nat) -> usize {
    match i {
        Some(i) => if i == 0 {
            (len - 1) as usize
        } else {
            (i - 1) as usize
        },
        None => 0,
    }
}

impl<T> SelectableList<T> {
    /// No items, nothing selected.
    pub fn empty() -> (l: Self)
        ensures
            l.items@.len() == 0,
            l.selected is None,
    {
        SelectableList { selected: None, items: Vec::new() }
    }

    /// The selected item, if the selection is on an item.
    pub fn selected(&self) -> (r: Option<&T>)
        ensures
            r == match self.selected {
                Some(i) => if i < self.items@.len() {
                    Some(&self.items@[i as int])
                } else {
                    None
                },
                None => None,
            },
    {
        match self.selected {
            Some(i) => if i < self.items.len() {
                Some(&self.items[i])
            } else {
                None
            },
            None => None,
        }
    }

    /// Selects the first item, if there is one.
    pub fn select_first(&mut self)
        ensures
            final(self).items@ == old(self).items@,
            final(self).selected == if old(self).items@.len() > 0 {
                Some(0usize)
            } else {
                old(self).selected
            },
    {
        if self.items.len() > 0 {
            self.selected = Some(0);
        }
    }

    /// Moves the selection down, wrapping to the first item.
    pub fn select_next(&mut self)
        ensures
            final(self).items@ == old(self).items@,
            final(self).selected == if old(self).items@.len() == 0 {
                old(self).selected
            } else {
                Some(wrap_next(old(self).selected, old(self).items@.len()))
            },
    {
        if self.items.len() == 0 {
            return;
        }
        let i = match self.selected {
            Some(i) => if i >= self.items.len() - 1 {
                0
            } else {
                i + 1
            },
            None => 0,
        };
        self.selected = Some(i);
    }

    /// Moves the selection up, wrapping to the last item.
    pub fn select_previous(&mut self)
        ensures
            final(self).items@ == old(self).items@,
            final(self).selected == if old(self).items@.len() == 0 {
                old(self).selected
            } else {
                Some(wrap_previous(old(self).selected, old(self).items@.len()))
            },
    {
        if self.items.len() == 0 {
            return;
        }
        let i = match self.selected {
            Some(i) => if i == 0 {
                self.items.len() - 1
            } else {
                i - 1
            },
            None => 0,
        };
        self.selected = Some(i);
    }

    /// Selects an index (ignored when out of range); `None` clears.
    pub fn select(&mut self, index: Option<usize>)
        ensures
            final(self).items@ == old(self).items@,
            final(self).selected == match index {
                Some(i) => if i < old(self).items@.len() {
                    Some(i)
                } else {
                    old(self).selected
                },
                None => None,
            },
    {
        match index {
            Some(i) => {
                if i < self.items.len() {
                    self.selected = Some(i);
                }
            },
            None => {
                self.selected = None;
            },
        }
    }

    /// Selects the first item the predicate accepts; returns whether there
    /// was one (the selection is unchanged otherwise).
    pub fn select_by<F: Fn(&T) -> bool>(&mut self, predicate: F) -> (found: bool)
        requires
            forall|i: int| 0 <= i < old(self).items@.len() ==> predicate.requires(
                (&old(self).items@[i],),
            ),
        ensures
            final(self).items@ == old(self).items@,
            found ==> (final(self).selected matches Some(k) && k < old(self).items@.len()
                && predicate.ensures((&old(self).items@[k as int],), true) && forall|j: int|
                0 <= j < k ==> predicate.ensures((&old(self).items@[j],), false)),
            !found ==> final(self).selected == old(self).selected && forall|j: int|
                0 <= j < old(self).items@.len() ==> predicate.ensures((&old(self).items@[j],), false),
    {
        let mut i: usize = 0;
        while i < self.items.len()
            invariant
                i <= self.items@.len(),
                self.items@ == old(self).items@,
                self.selected == old(self).selected,
                forall|k: int| 0 <= k < self.items@.len() ==> predicate.requires(
                    (&self.items@[k],),
                ),
                forall|j: int| 0 <= j < i ==> predicate.ensures((&self.items@[j],), false),
            decreases self.items@.len() - i,
        {
            let hit = predicate(&self.items[i]);
            if hit {
                self.selected = Some(i);
                return true;
            }
            i = i + 1;
        }
        false
    }

    /// All items.
    pub fn items(&self) -> (r: &Vec<T>)
        ensures
            r@ == self.items@,
    {
        &self.items
    }

    /// All items, for changing them.
    pub fn items_mut(&mut self) -> (r: &mut Vec<T>)
        ensures
            *r == old(self).items,
            final(self).items == *final(r),
            final(self).selected == old(self).selected,
    {
        &mut self.items
    }

    /// The selected index.
    pub fn state(&self) -> (s: Option<usize>)
        ensures
            s == self.selected,
    {
        self.selected
    }
}

impl<T> Default for SelectableList<T> {
    fn default() -> (l: Self)
        ensures
            l.items@.len() == 0,
            l.selected is None,
    {
        SelectableList::empty()
    }
}

/// Moving down `len` times from the first item comes back to it, and moving
/// down then up returns to the same item.
pub proof fn lemma_wrap_inverse(i: usize, len: nat)
    requires
        i < len,
        len <= usize::MAX,
    ensures
        wrap_previous(Some(wrap_next(Some(i), len)), len) == i,
        wrap_next(Some(wrap_previous(Some(i), len)), len) == i,
{
}

} // verus!
