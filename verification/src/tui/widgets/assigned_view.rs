//! The list of items assigned to the user: keys and row decorations.
use vstd::prelude::*;

use crate::models::assigned_item::{next_filter, AssignedItem, AssignedItemsFilter};
use crate::models::task::{Priority, TaskStatus};
use crate::text::{spec_to_lowercase, str_eq, to_lowercase};
use crate::tui::input::KeyCode;

verus! {

/// The colour of a task's status in the list.
#[derive(Debug, Clone, Copy, PartialEq, Eq, Structural)]
pub enum StatusColor {
    Green,
    Yellow,
    White,
    Gray,
}

/// The colour of a status, by its lower-cased name: complete and done are
/// green, in progress yellow, todo white, anything else (or no status) gray.
pub open spec fn status_color_spec(status: Option<TaskStatus>) -> StatusColor {
    match status {
        Some(s) => {
            let l = spec_to_lowercase(s.status@);
            if l == "complete"@ || l == "done"@ {
                StatusColor::Green
            } else if l == "in progress"@ {
                StatusColor::Yellow
            } else if l == "todo"@ {
                StatusColor::White
            } else {
                StatusColor::Gray
            }
        },
        None => StatusColor::Gray,
    }
}

/// The colour of a task's status.
pub fn get_task_status_color(status: &Option<TaskStatus>) -> (c: StatusColor)
    ensures
        c == status_color_spec(*status),
{
    match status {
        Some(s) => {
            let l = to_lowercase(s.status.as_str());
            if str_eq(l.as_str(), "complete") || str_eq(l.as_str(), "done") {
                StatusColor::Green
            } else if str_eq(l.as_str(), "in progress") {
                StatusColor::Yellow
            } else if str_eq(l.as_str(), "todo") {
                StatusColor::White
            } else {
                StatusColor::Gray
            }
        },
        None => StatusColor::Gray,
    }
}

/// The icon after a task's name for its priority.
pub open spec fn priority_icon_spec(priority: Option<Priority>) -> Seq<char> {
    match priority {
        Some(p) => if p.priority@ == "urgent"@ {
            " ⚡"@
        } else if p.priority@ == "high"@ {
            " ↑"@
        } else if p.priority@ == "low"@ {
            " ↓"@
        } else {
            ""@
        },
        None => ""@,
    }
}

/// The icon after a task's name for its priority: urgent, high and low have
/// one, other priorities none.
pub fn get_task_priority_icon(priority: &Option<Priority>) -> (s: &'static str)
    ensures
        s@ == priority_icon_spec(*priority),
{
    match priority {
        Some(p) => if str_eq(p.priority.as_str(), "urgent") {
            " ⚡"
        } else if str_eq(p.priority.as_str(), "high") {
            " ↑"
        } else if str_eq(p.priority.as_str(), "low") {
            " ↓"
        } else {
            ""
        },
        None => "",
    }
}

/// The last index of `count` items (0 when there are none).
pub open spec fn last_of(count: nat) -> int {
    if count == 0 {
        0
    } else {
        count - 1
    }
}

/// Handles a key in the assigned items list (`items`, of which `item_count`
/// are shown): j/k (or
/// the arrows) move within the shown items without wrapping, g and G jump to
/// the first and the last one, f switches the filter and goes back to the
/// first item. Returns whether the key was used.
pub fn handle_assigned_view_input(
    key: KeyCode,
    items: &[AssignedItem],
    selected_index: &mut usize,
    filter: &mut AssignedItemsFilter,
    item_count: usize,
) -> (handled: bool)
    ensures
        handled == (key == KeyCode::Char('j') || key == KeyCode::Down || key == KeyCode::Char('k')
            || key == KeyCode::Up || key == KeyCode::Char('g') || key == KeyCode::Char('G') || key
            == KeyCode::Char('f')),
        *final(selected_index) == if key == KeyCode::Char('j') || key == KeyCode::Down {
            if *old(selected_index) < last_of(item_count as nat) {
                (*old(selected_index) + 1) as usize
            } else {
                *old(selected_index)
            }
        } else if key == KeyCode::Char('k') || key == KeyCode::Up {
            if *old(selected_index) > 0 {
                (*old(selected_index) - 1) as usize
            } else {
                *old(selected_index)
            }
        } else if key == KeyCode::Char('g') || key == KeyCode::Char('f') {
            0
        } else if key == KeyCode::Char('G') {
            last_of(item_count as nat) as usize
        } else {
            *old(selected_index)
        },
        *final(filter) == if key == KeyCode::Char('f') {
            next_filter(*old(filter))
        } else {
            *old(filter)
        },
{
    let last = if item_count == 0 {
        0
    } else {
        item_count - 1
    };
    if key == KeyCode::Char('j') || key == KeyCode::Down {
        if *selected_index < last {
            *selected_index = *selected_index + 1;
        }
        true
    } else if key == KeyCode::Char('k') || key == KeyCode::Up {
        if *selected_index > 0 {
            *selected_index = *selected_index - 1;
        }
        true
    } else if key == KeyCode::Char('g') {
        *selected_index = 0;
        true
    } else if key == KeyCode::Char('G') {
        *selected_index = last;
        true
    } else if key == KeyCode::Char('f') {
        *filter = filter.next();
        *selected_index = 0;
        true
    } else {
        false
    }
}

} // verus!
