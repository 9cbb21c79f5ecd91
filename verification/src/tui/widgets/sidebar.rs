//! The workspace hierarchy sidebar.
use vstd::prelude::*;

use crate::tui::helpers::SelectableList;

verus! {

/// An entry of the sidebar.
#[derive(Debug, Clone)]
pub enum SidebarItem {
    Workspace { name: String, id: String },
    Space { name: String, id: String },
    Folder { name: String, id: String },
    List { name: String, id: String },
}

/// The id of a sidebar entry.
pub open spec fn item_id(item: SidebarItem) -> Seq<char> {
    match item {
        SidebarItem::Workspace { id, .. } => id@,
        SidebarItem::Space { id, .. } => id@,
        SidebarItem::Folder { id, .. } => id@,
        SidebarItem::List { id, .. } => id@,
    }
}

/// The name of a sidebar entry.
pub open spec fn item_name(item: SidebarItem) -> Seq<char> {
    match item {
        SidebarItem::Workspace { name, .. } => name@,
        SidebarItem::Space { name, .. } => name@,
        SidebarItem::Folder { name, .. } => name@,
        SidebarItem::List { name, .. } => name@,
    }
}

impl SidebarItem {
    /// The id of this entry.
    pub fn id(&self) -> (s: &str)
        ensures
            s@ == item_id(*self),
    {
        match self {
            SidebarItem::Workspace { id, .. } => id.as_str(),
            SidebarItem::Space { id, .. } => id.as_str(),
            SidebarItem::Folder { id, .. } => id.as_str(),
            SidebarItem::List { id, .. } => id.as_str(),
        }
    }

    /// The name of this entry.
    pub fn name(&self) -> (s: &str)
        ensures
            s@ == item_name(*self),
    {
        match self {
            SidebarItem::Workspace { name, .. } => name.as_str(),
            SidebarItem::Space { name, .. } => name.as_str(),
            SidebarItem::Folder { name, .. } => name.as_str(),
            SidebarItem::List { name, .. } => name.as_str(),
        }
    }
}

/// The first index whose entry has the given id, if any.
pub open spec fn first_with_id(items: Seq<SidebarItem>, id: Seq<char>) -> Option<int> {
    if exists|i: int| 0 <= i < items.len() && item_id(items[i]) == id {
        Some(
            choose|i: int|
                0 <= i < items.len() && item_id(items[i]) == id && forall|j: int|
                    0 <= j < i ==> item_id(#[trigger] items[j]) != id,
        )
    } else {
        None
    }
}

/// An entry with the id makes `first_with_id` find the first such entry, at
/// or before it.
pub proof fn lemma_first_with_id_found(items: Seq<SidebarItem>, id: Seq<char>, i: int)
    requires
        0 <= i < items.len(),
        item_id(items[i]) == id,
    ensures
        first_with_id(items, id) matches Some(k) && 0 <= k <= i && item_id(items[k]) == id
            && forall|j: int| 0 <= j < k ==> item_id(#[trigger] items[j]) != id,
    decreases i,
{
    if exists|j: int| 0 <= j < i && item_id(#[trigger] items[j]) == id {
        let j = choose|j: int| 0 <= j < i && item_id(#[trigger] items[j]) == id;
        lemma_first_with_id_found(items, id, j);
    } else {
        assert(0 <= i < items.len() && item_id(items[i]) == id && forall|j: int|
            0 <= j < i ==> item_id(#[trigger] items[j]) != id);
        let k = choose|k: int|
            0 <= k < items.len() && item_id(items[k]) == id && forall|j: int|
                0 <= j < k ==> item_id(#[trigger] items[j]) != id;
        if k < i {
            assert(item_id(items[k]) != id);
        } else if k > i {
            assert(item_id(items[i]) != id);
        }
    }
}

/// The index of the first entry with the id.
pub fn find_item(items: &Vec<SidebarItem>, id: &str) -> (r: Option<usize>)
    ensures
        r matches Some(k) ==> k < items@.len(),
        match r {
            Some(k) => first_with_id(items@, id@) == Some(k as int),
            None => first_with_id(items@, id@) is None,
        },
{
    let mut i: usize = 0;
    while i < items.len()
        invariant
            i <= items@.len(),
            forall|j: int| 0 <= j < i ==> item_id(#[trigger] items@[j]) != id@,
        decreases items@.len() - i,
    {
        if crate::text::str_eq(items[i].id(), id) {
            proof {
                lemma_first_with_id_found(items@, id@, i as int);
                let k = first_with_id(items@, id@)->0;
                if k < i {
                    assert(item_id(items@[k]) != id@);
                }
            }
            return Some(i);
        }
        i = i + 1;
    }
    None
}

/// The sidebar: its entries with a selection, and whether it is shown.
#[derive(Debug, Clone)]
pub struct SidebarState {
    pub list: SelectableList<SidebarItem>,
    pub visible: bool,
}

impl Default for SidebarState {
    fn default() -> (s: Self)
        ensures
            s.list.items@.len() == 0,
            s.list.selected is None,
            s.visible,
    {
        SidebarState::new()
    }
}

impl SidebarState {
    /// Empty and visible.
    pub fn new() -> (s: Self)
        ensures
            s.list.items@.len() == 0,
            s.list.selected is None,
            s.visible,
    {
        SidebarState { list: SelectableList::empty(), visible: true }
    }

    /// Selects the first entry.
    pub fn select_first(&mut self)
        ensures
            final(self).list.items@ == old(self).list.items@,
            final(self).visible == old(self).visible,
            final(self).list.selected == if old(self).list.items@.len() > 0 {
                Some(0usize)
            } else {
                old(self).list.selected
            },
    {
        self.list.select_first();
    }

    /// Moves the selection down, wrapping.
    pub fn select_next(&mut self)
        ensures
            final(self).list.items@ == old(self).list.items@,
            final(self).visible == old(self).visible,
            final(self).list.selected == if old(self).list.items@.len() == 0 {
                old(self).list.selected
            } else {
                Some(
                    crate::tui::helpers::wrap_next(
                        old(self).list.selected,
                        old(self).list.items@.len(),
                    ),
                )
            },
    {
        self.list.select_next();
    }

    /// Moves the selection up, wrapping.
    pub fn select_previous(&mut self)
        ensures
            final(self).list.items@ == old(self).list.items@,
            final(self).visible == old(self).visible,
            final(self).list.selected == if old(self).list.items@.len() == 0 {
                old(self).list.selected
            } else {
                Some(
                    crate::tui::helpers::wrap_previous(
                        old(self).list.selected,
                        old(self).list.items@.len(),
                    ),
                )
            },
    {
        self.list.select_previous();
    }

    /// The selected entry.
    pub fn selected_item(&self) -> (r: Option<&SidebarItem>)
        ensures
            r == match self.list.selected {
                Some(i) => if i < self.list.items@.len() {
                    Some(&self.list.items@[i as int])
                } else {
                    None
                },
                None => None,
            },
    {
        self.list.selected()
    }

    /// Selects the first entry with the given id; returns whether there was
    /// one (the selection is unchanged otherwise).
    pub fn select_by_id(&mut self, id: &str) -> (found: bool)
        ensures
            final(self).list.items@ == old(self).list.items@,
            final(self).visible == old(self).visible,
            found == (first_with_id(old(self).list.items@, id@) is Some),
            found ==> final(self).list.selected == Some(
                first_with_id(old(self).list.items@, id@)->0 as usize,
            ),
            !found ==> final(self).list.selected == old(self).list.selected,
    {
        let mut i: usize = 0;
        while i < self.list.items.len()
            invariant
                i <= self.list.items@.len(),
                self.list.items@ == old(self).list.items@,
                self.list.selected == old(self).list.selected,
                self.visible == old(self).visible,
                forall|j: int| 0 <= j < i ==> item_id(#[trigger] self.list.items@[j]) != id@,
            decreases self.list.items@.len() - i,
        {
            if crate::text::str_eq(self.list.items[i].id(), id) {
                proof {
                    let items = self.list.items@;
                    assert(item_id(items[i as int]) == id@);
                    let c = choose|c: int|
                        0 <= c < items.len() && item_id(items[c]) == id@ && forall|j: int|
                            0 <= j < c ==> item_id(#[trigger] items[j]) != id@;
                    if c < i {
                        assert(item_id(items[c]) != id@);
                    } else if c > i {
                        assert(item_id(items[i as int]) != id@);
                    }
                }
                self.list.select(Some(i));
                return true;
            }
            i = i + 1;
        }
        false
    }

    /// Selects an index.
    pub fn select(&mut self, index: Option<usize>)
        ensures
            final(self).list.items@ == old(self).list.items@,
            final(self).visible == old(self).visible,
            final(self).list.selected == match index {
                Some(i) => if i < old(self).list.items@.len() {
                    Some(i)
                } else {
                    old(self).list.selected
                },
                None => None,
            },
    {
        self.list.select(index);
    }

    /// The entries.
    pub fn items(&self) -> (r: &Vec<SidebarItem>)
        ensures
            r@ == self.list.items@,
    {
        self.list.items()
    }

    /// The entries, for changing them.
    pub fn items_mut(&mut self) -> (r: &mut Vec<SidebarItem>)
        ensures
            *r == old(self).list.items,
            final(self).list.items == *final(r),
            final(self).list.selected == old(self).list.selected,
            final(self).visible == old(self).visible,
    {
        self.list.items_mut()
    }

    /// The selected index.
    pub fn state(&self) -> (s: Option<usize>)
        ensures
            s == self.list.selected,
    {
        self.list.state()
    }
}

/// Status-bar hints for the sidebar.
pub fn get_sidebar_hints() -> (s: &'static str)
    ensures
        s@ == "j/k: Navigate | Enter: Select | Tab: Toggle | Ctrl+Q: Quit"@,
{
    "j/k: Navigate | Enter: Select | Tab: Toggle | Ctrl+Q: Quit"
}

} // verus!
