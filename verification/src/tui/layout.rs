//! Screen titles and panel scrolling.
use vstd::prelude::*;

use crate::text::{owned, push_str};

verus! {

/// Minimum terminal width.
pub const MIN_WIDTH: u16 = 80;

/// Minimum terminal height.
pub const MIN_HEIGHT: u16 = 24;

/// Share of the task detail height given to the description panel (percent).
pub const TASK_DETAIL_DESCRIPTION_RATIO: u16 = 30;

/// Share of the task detail height given to the comments panel (percent).
pub const TASK_DETAIL_COMMENTS_RATIO: u16 = 70;

/// The title bar text for a context: `ClickDown - {context}`.
pub fn generate_screen_title(context: &str) -> (s: String)
    ensures
        s@ == "ClickDown - "@ + context@,
{
    let mut s = owned("ClickDown - ");
    push_str(&mut s, context);
    s
}

/// Scroll position of a panel.
#[derive(Debug, Clone)]
pub struct ScrollState {
    /// Lines scrolled from the top.
    pub offset: usize,
    /// Largest offset (content height minus visible height).
    pub max_offset: usize,
    /// Whether the content is taller than the panel.
    pub scrollable: bool,
}

impl Default for ScrollState {
    fn default() -> (s: Self)
        ensures
            s.offset == 0,
            s.max_offset == 0,
            !s.scrollable,
    {
        ScrollState { offset: 0, max_offset: 0, scrollable: false }
    }
}

impl ScrollState {
    /// At the top, nothing to scroll.
    pub fn new() -> (s: Self)
        ensures
            s.offset == 0,
            s.max_offset == 0,
            !s.scrollable,
    {
        ScrollState { offset: 0, max_offset: 0, scrollable: false }
    }

    /// Recomputes the scroll range for the content and panel heights and
    /// clamps the offset into it.
    pub fn update(&mut self, content_height: usize, available_height: usize)
        ensures
            final(self).scrollable == (content_height > available_height),
            final(self).max_offset == if content_height > available_height {
                content_height - available_height
            } else {
                0
            },
            final(self).offset == if old(self).offset > final(self).max_offset {
                final(self).max_offset
            } else {
                old(self).offset
            },
    {
        self.scrollable = content_height > available_height;
        self.max_offset = if content_height > available_height {
            content_height - available_height
        } else {
            0
        };
        if self.offset > self.max_offset {
            self.offset = self.max_offset;
        }
    }

    /// Scrolls up one line, stopping at the top.
    pub fn scroll_up(&mut self)
        ensures
            final(self).offset == if old(self).offset > 0 {
                old(self).offset - 1
            } else {
                0
            },
            final(self).max_offset == old(self).max_offset,
            final(self).scrollable == old(self).scrollable,
    {
        if self.offset > 0 {
            self.offset = self.offset - 1;
        }
    }

    /// Scrolls down one line, stopping at the largest offset.
    pub fn scroll_down(&mut self)
        ensures
            final(self).offset == if old(self).offset + 1 < old(self).max_offset {
                old(self).offset + 1
            } else {
                old(self).max_offset as int
            },
            final(self).max_offset == old(self).max_offset,
            final(self).scrollable == old(self).scrollable,
    {
        if self.offset < self.max_offset && self.offset + 1 < self.max_offset {
            self.offset = self.offset + 1;
        } else {
            self.offset = self.max_offset;
        }
    }

    /// Scrolls to a position, clamped to the largest offset.
    pub fn scroll_to(&mut self, position: usize)
        ensures
            final(self).offset == if position < old(self).max_offset {
                position
            } else {
                old(self).max_offset
            },
            final(self).max_offset == old(self).max_offset,
            final(self).scrollable == old(self).scrollable,
    {
        self.offset = if position < self.max_offset {
            position
        } else {
            self.max_offset
        };
    }

    /// Back to the top.
    pub fn reset(&mut self)
        ensures
            final(self).offset == 0,
            final(self).max_offset == old(self).max_offset,
            final(self).scrollable == old(self).scrollable,
    {
        self.offset = 0;
    }
}

/// After `update`, the offset never exceeds the largest offset, and scrolling
/// keeps it so.
pub proof fn lemma_scroll_stays_in_range(offset: int, max_offset: int)
    requires
        0 <= offset <= max_offset,
    ensures
        0 <= (if offset > 0 {
            offset - 1
        } else {
            0
        }) <= max_offset,
        0 <= (if offset + 1 < max_offset {
            offset + 1
        } else {
            max_offset
        }) <= max_offset,
{
}

} // verus!
