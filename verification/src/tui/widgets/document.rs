//! The document viewer.
use pulldown_cmark::{Event, TagEnd};
use vstd::prelude::*;

use crate::text::{push_char, push_str};

verus! {

/// State of the document viewer.
#[derive(Debug, Clone)]
pub struct DocumentState {
    pub title: String,
    pub content: String,
    pub scroll_offset: usize,
}

impl Default for DocumentState {
    fn default() -> (s: Self)
        ensures
            s.title@ == Seq::<char>::empty(),
            s.content@ == Seq::<char>::empty(),
            s.scroll_offset == 0,
    {
        DocumentState::new()
    }
}

impl DocumentState {
    /// An empty viewer.
    pub fn new() -> (s: Self)
        ensures
            s.title@ == Seq::<char>::empty(),
            s.content@ == Seq::<char>::empty(),
            s.scroll_offset == 0,
    {
        DocumentState { title: String::new(), content: String::new(), scroll_offset: 0 }
    }

    /// Scrolls one line down (up to the largest offset).
    pub fn scroll_down(&mut self)
        ensures
            final(self).title == old(self).title,
            final(self).content == old(self).content,
            final(self).scroll_offset == if old(self).scroll_offset < usize::MAX {
                old(self).scroll_offset + 1
            } else {
                old(self).scroll_offset as int
            },
    {
        if self.scroll_offset < usize::MAX {
            self.scroll_offset = self.scroll_offset + 1;
        }
    }

    /// Scrolls one line up (not above the top).
    pub fn scroll_up(&mut self)
        ensures
            final(self).title == old(self).title,
            final(self).content == old(self).content,
            final(self).scroll_offset == if old(self).scroll_offset > 0 {
                old(self).scroll_offset - 1
            } else {
                0
            },
    {
        if self.scroll_offset > 0 {
            self.scroll_offset = self.scroll_offset - 1;
        }
    }
}

/// A markdown parser event, as far as the viewer distinguishes them.
#[derive(Debug, Clone)]
pub enum MdEvent {
    /// A text node.
    Text(String),
    /// Inline code.
    Code(String),
    /// A soft or hard line break.
    Break,
    /// The end of a paragraph.
    ParagraphEnd,
    /// The end of a heading.
    HeadingEnd,
    /// Anything else.
    Other,
}

/// A markdown event as plain values.
pub enum MdEventView {
    Text(Seq<char>),
    Code(Seq<char>),
    Break,
    ParagraphEnd,
    HeadingEnd,
    Other,
}

/// The view of an event.
pub open spec fn md_event_view(e: MdEvent) -> MdEventView {
    match e {
        MdEvent::Text(s) => MdEventView::Text(s@),
        MdEvent::Code(s) => MdEventView::Code(s@),
        MdEvent::Break => MdEventView::Break,
        MdEvent::ParagraphEnd => MdEventView::ParagraphEnd,
        MdEvent::HeadingEnd => MdEventView::HeadingEnd,
        MdEvent::Other => MdEventView::Other,
    }
}

/// The events that `pulldown_cmark::Parser` yields for a markdown text.
pub uninterp spec fn spec_markdown_events(md: Seq<char>) -> Seq<MdEventView>;

/// What one event contributes to the plain text: text as is, code in
/// backticks, a newline for a break, a blank line after paragraphs and
/// headings, nothing otherwise.
pub open spec fn event_text(e: MdEventView) -> Seq<char> {
    match e {
        MdEventView::Text(s) => s,
        MdEventView::Code(s) => seq!['`'] + s + seq!['`'],
        MdEventView::Break => seq!['\n'],
        MdEventView::ParagraphEnd => seq!['\n', '\n'],
        MdEventView::HeadingEnd => seq!['\n', '\n'],
        MdEventView::Other => Seq::empty(),
    }
}

/// The plain text of a sequence of events.
pub open spec fn events_text(es: Seq<MdEventView>) -> Seq<char>
    decreases es.len(),
{
    if es.len() == 0 {
        Seq::empty()
    } else {
        events_text(es.drop_last()) + event_text(es.last())
    }
}

/// Parses markdown into events with `pulldown_cmark::Parser::new`, keeping
/// the kinds the viewer renders.
#[verifier::external_body]
fn markdown_events(md: &str) -> (es: Vec<MdEvent>)
    ensures
        es@.map_values(|e: MdEvent| md_event_view(e)) == spec_markdown_events(md@),
{
    pulldown_cmark::Parser::new(md).map(|e| match e {
        Event::Text(t) => MdEvent::Text(t.to_string()),
        Event::Code(c) => MdEvent::Code(c.to_string()),
        Event::SoftBreak | Event::HardBreak => MdEvent::Break,
        Event::End(TagEnd::Paragraph) => MdEvent::ParagraphEnd,
        Event::End(TagEnd::Heading(_)) => MdEvent::HeadingEnd,
        _ => MdEvent::Other,
    }).collect()
}

/// The plain text of parsed markdown events.
pub fn events_to_text(events: &Vec<MdEvent>) -> (s: String)
    ensures
        s@ == events_text(events@.map_values(|e: MdEvent| md_event_view(e))),
{
    let ghost es = events@.map_values(|e: MdEvent| md_event_view(e));
    let mut out = String::new();
    let mut i: usize = 0;
    while i < events.len()
        invariant
            i <= events.len(),
            es == events@.map_values(|e: MdEvent| md_event_view(e)),
            out@ == events_text(es.take(i as int)),
        decreases events.len() - i,
    {
        proof {
            assert(es.take(i + 1).drop_last() =~= es.take(i as int));
        }
        match &events[i] {
            MdEvent::Text(t) => push_str(&mut out, t.as_str()),
            MdEvent::Code(c) => {
                push_char(&mut out, '`');
                push_str(&mut out, c.as_str());
                push_char(&mut out, '`');
            },
            MdEvent::Break => push_char(&mut out, '\n'),
            MdEvent::ParagraphEnd | MdEvent::HeadingEnd => {
                push_char(&mut out, '\n');
                push_char(&mut out, '\n');
            },
            MdEvent::Other => {},
        }
        proof {
            assert(out@ =~= events_text(es.take(i + 1)));
        }
        i = i + 1;
    }
    assert(es.take(events.len() as int) =~= es);
    out
}

/// Markdown rendered as plain text for the terminal.
pub fn markdown_to_text(md: &str) -> (s: String)
    ensures
        s@ == events_text(spec_markdown_events(md@)),
{
    let events = markdown_events(md);
    events_to_text(&events)
}

/// Status-bar hints for the document viewer.
pub fn get_document_hints() -> (s: &'static str)
    ensures
        s@ == "j/k: Scroll | Esc: Close"@,
{
    "j/k: Scroll | Esc: Close"
}

} // verus!
