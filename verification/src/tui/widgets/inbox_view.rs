//! The inbox activity list.
use vstd::prelude::*;

use crate::models::inbox_activity::InboxActivity;
use crate::tui::helpers::{wrap_next, wrap_previous};

verus! {

/// The activities shown and the selected one.
#[derive(Debug, Clone)]
pub struct InboxListState {
    pub selected: Option<usize>,
    pub activities: Vec<InboxActivity>,
}

/// The selection after new activities arrive: none for an empty list, the
/// first when nothing was selected, the last when the old selection is past
/// the end, and otherwise unchanged.
pub open spec fn selection_after_set(old_sel: Option<usize>, len: nat) -> Option<usize> {
    if len == 0 {
        None
    } else {
        match old_sel {
            None => Some(0usize),
            Some(i) => if i >= len {
                Some((len - 1) as usize)
            } else {
                Some(i)
            },
        }
    }
}

impl InboxListState {
    /// No activities, nothing selected.
    pub fn new() -> (s: Self)
        ensures
            s.selected is None,
            s.activities@.len() == 0,
    {
        InboxListState { selected: None, activities: Vec::new() }
    }

    /// Shows new activities, keeping the selection within them.
    pub fn set_activities(&mut self, activities: Vec<InboxActivity>)
        ensures
            final(self).activities@ == activities@,
            final(self).selected == selection_after_set(old(self).selected, activities@.len()),
    {
        self.activities = activities;
        let n = self.activities.len();
        if n == 0 {
            self.selected = None;
        } else {
            match self.selected {
                None => {
                    self.selected = Some(0);
                },
                Some(i) => {
                    if i >= n {
                        self.selected = Some(n - 1);
                    }
                },
            }
        }
    }

    /// Same as `set_activities`.
    pub fn set_notifications(&mut self, activities: Vec<InboxActivity>)
        ensures
            final(self).activities@ == activities@,
            final(self).selected == selection_after_set(old(self).selected, activities@.len()),
    {
        self.set_activities(activities);
    }

    /// Moves the selection down, wrapping; nothing happens on an empty list.
    pub fn select_next(&mut self)
        ensures
            final(self).activities == old(self).activities,
            final(self).selected == if old(self).activities@.len() == 0 {
                old(self).selected
            } else {
                Some(wrap_next(old(self).selected, old(self).activities@.len()))
            },
    {
        let n = self.activities.len();
        if n == 0 {
            return;
        }
        let i = match self.selected {
            Some(i) => if i >= n - 1 {
                0
            } else {
                i + 1
            },
            None => 0,
        };
        self.selected = Some(i);
    }

    /// Moves the selection up, wrapping; nothing happens on an empty list.
    pub fn select_previous(&mut self)
        ensures
            final(self).activities == old(self).activities,
            final(self).selected == if old(self).activities@.len() == 0 {
                old(self).selected
            } else {
                Some(wrap_previous(old(self).selected, old(self).activities@.len()))
            },
    {
        let n = self.activities.len();
        if n == 0 {
            return;
        }
        let i = match self.selected {
            Some(i) => if i == 0 {
                n - 1
            } else {
                i - 1
            },
            None => 0,
        };
        self.selected = Some(i);
    }

    /// The selected index.
    pub fn selected(&self) -> (s: Option<usize>)
        ensures
            s == self.selected,
    {
        self.selected
    }

    /// The selected activity, if the selection is on one.
    pub fn selected_activity(&self) -> (r: Option<&InboxActivity>)
        ensures
            r == match self.selected {
                Some(i) => if i < self.activities@.len() {
                    Some(&self.activities@[i as int])
                } else {
                    None
                },
                None => None,
            },
    {
        match self.selected {
            Some(i) => if i < self.activities.len() {
                Some(&self.activities[i])
            } else {
                None
            },
            None => None,
        }
    }

    /// Same as `selected_activity`.
    pub fn selected_notification(&self) -> (r: Option<&InboxActivity>)
        ensures
            r == match self.selected {
                Some(i) => if i < self.activities@.len() {
                    Some(&self.activities@[i as int])
                } else {
                    None
                },
                None => None,
            },
    {
        self.selected_activity()
    }

    /// The activities.
    pub fn activities(&self) -> (r: &Vec<InboxActivity>)
        ensures
            r@ == self.activities@,
    {
        &self.activities
    }

    /// Same as `activities`.
    pub fn notifications(&self) -> (r: &Vec<InboxActivity>)
        ensures
            r@ == self.activities@,
    {
        &self.activities
    }

    /// Selects an index (or nothing).
    pub fn select(&mut self, index: Option<usize>)
        ensures
            final(self).activities == old(self).activities,
            final(self).selected == index,
    {
        self.selected = index;
    }
}

impl Default for InboxListState {
    fn default() -> (s: Self)
        ensures
            s.selected is None,
            s.activities@.len() == 0,
    {
        InboxListState::new()
    }
}

} // verus!
