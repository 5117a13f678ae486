//! Small compositions that several elements share: underlines and links.
use crate::visual::{
    visual_views, Event, EventView, Length, Padding, Span, SpanView, Visual, VisualView,
};
use vstd::prelude::*;

verus! {

/// A plain column of the given items: no spacing, no padding, no alignment.
pub open spec fn plain_column(items: Seq<VisualView>) -> VisualView {
    VisualView::Column { items, spacing: 0, padding: Padding::spec_all(0), align: None }
}

/// `e` with a line drawn along its bottom edge: a stack of `e` and of a column that
/// pushes a one-pixel rule, and one pixel of room, to the bottom.
pub open spec fn spec_underline(e: VisualView) -> VisualView {
    VisualView::Stack {
        layers: seq![
            plain_column(seq![e]),
            plain_column(
                seq![
                    VisualView::Space { width: Length::Shrink, height: Length::Fill },
                    VisualView::HorizontalRule { thickness: 1 },
                    VisualView::Space { width: Length::Shrink, height: Length::Fixed(1) },
                ],
            ),
        ],
    }
}

/// What activating a link to `url` reports: a click where the host listens, nothing
/// where it does not.
pub open spec fn link_event(url: Seq<char>, clickable: bool) -> Option<EventView> {
    if clickable {
        Some(EventView::LinkClicked(url))
    } else {
        None
    }
}

/// `e` as a link: underlined, inside a button without padding.
pub open spec fn spec_link(e: VisualView, url: Seq<char>, clickable: bool) -> VisualView {
    VisualView::Button {
        content: Box::new(spec_underline(e)),
        on_press: link_event(url, clickable),
        padding: Padding::spec_all(0),
    }
}

/// A run of text as a link: underlined, and reporting the click where the host listens.
pub open spec fn spec_link_text(e: SpanView, url: Seq<char>, clickable: bool) -> SpanView {
    SpanView { link: link_event(url, clickable), underline: true, ..e }
}

pub fn underline(e: Visual) -> (out: Visual)
    ensures
        out@ == spec_underline(e@),
{
    let mut top: Vec<Visual> = Vec::new();
    top.push(e);
    let mut line: Vec<Visual> = Vec::new();
    line.push(Visual::Space { width: Length::Shrink, height: Length::Fill });
    line.push(Visual::HorizontalRule { thickness: 1 });
    line.push(Visual::Space { width: Length::Shrink, height: Length::Fixed(1) });
    assert(visual_views(top@) =~= seq![e@]);
    assert(visual_views(line@) =~= seq![
        VisualView::Space { width: Length::Shrink, height: Length::Fill },
        VisualView::HorizontalRule { thickness: 1 },
        VisualView::Space { width: Length::Shrink, height: Length::Fixed(1) },
    ]);
    let mut layers: Vec<Visual> = Vec::new();
    let first = Visual::column(top, 0, Padding::all(0), None);
    let second = Visual::column(line, 0, Padding::all(0), None);
    layers.push(first);
    layers.push(second);
    assert(visual_views(layers@) =~= seq![first@, second@]);
    Visual::stack(layers)
}

/// Wraps `e` into a link to `url`. With `clickable` the link reports
/// `Event::LinkClicked(url)` when pressed; without, it is inert.
pub fn link(e: Visual, url: &str, clickable: bool) -> (out: Visual)
    ensures
        out@ == spec_link(e@, url@, clickable),
{
    let on_press = if clickable {
        Some(Event::LinkClicked(url.to_owned()))
    } else {
        None
    };
    Visual::button(underline(e), on_press, Padding::all(0))
}

/// Turns a run of text into a link to `url`, replacing whatever it reported before.
pub fn link_text(e: Span, url: String, clickable: bool) -> (out: Span)
    ensures
        out@ == spec_link_text(e@, url@, clickable),
{
    let link = if clickable {
        Some(Event::LinkClicked(url))
    } else {
        None
    };
    Span {
        text: e.text,
        size: e.size,
        font: e.font,
        underline: true,
        strikethrough: e.strikethrough,
        link,
    }
}

} // verus!
