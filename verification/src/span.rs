//! The unit that a traversal hands up the tree, and the rules for combining two of them.
use crate::visual::{span_views, visual_views, Padding, Span, SpanView, Visual, VisualView};
use vstd::prelude::*;

verus! {

/// Whether a composite unit shows anything.
#[derive(Debug, Clone, Copy, PartialEq, Eq, Structural)]
pub enum Emp {
    Empty,
    NonEmpty,
}

impl Emp {
    pub fn is_empty(self) -> (b: bool)
        ensures
            b == (self == Emp::Empty),
    {
        match self {
            Emp::Empty => true,
            Emp::NonEmpty => false,
        }
    }

    pub fn has_something(self) -> (b: bool)
        ensures
            b == (self == Emp::NonEmpty),
    {
        !self.is_empty()
    }
}

/// What rendering a node gives: nothing, inline runs of text that can still merge with
/// their neighbours, or a finished visual node.
#[derive(Debug, PartialEq, Eq)]
pub enum RenderedSpan {
    Spans(Vec<Span>),
    Elem(Visual, Emp),
    Empty,
}

pub enum RenderedSpanView {
    Spans(Seq<SpanView>),
    Elem(VisualView, Emp),
    Empty,
}

impl View for RenderedSpan {
    type V = RenderedSpanView;

    open spec fn view(&self) -> RenderedSpanView {
        match self {
            RenderedSpan::Spans(spans) => RenderedSpanView::Spans(span_views(spans@)),
            RenderedSpan::Elem(element, e) => RenderedSpanView::Elem(element@, *e),
            RenderedSpan::Empty => RenderedSpanView::Empty,
        }
    }
}

/// The column without items that stands for nothing at all.
pub open spec fn empty_column() -> VisualView {
    VisualView::Column {
        items: Seq::empty(),
        spacing: 0,
        padding: Padding::spec_all(0),
        align: None,
    }
}

/// The row that two units are put in when they cannot merge as text: it wraps, and
/// keeps 5 pixels between its items.
pub open spec fn flow_row(items: Seq<VisualView>) -> RenderedSpanView {
    RenderedSpanView::Elem(VisualView::Row { items, spacing: 5, wrap: true }, Emp::NonEmpty)
}

/// The one-item sequence of a composite that shows something; nothing for one that does not.
pub open spec fn shown(element: VisualView, e: Emp) -> Seq<VisualView> {
    if e == Emp::NonEmpty {
        seq![element]
    } else {
        Seq::empty()
    }
}

impl RenderedSpanView {
    /// Whether the unit shows nothing, decided without rendering it.
    pub open spec fn is_empty(self) -> bool {
        match self {
            RenderedSpanView::Spans(spans) => spans.len() == 0,
            RenderedSpanView::Elem(_, e) => e == Emp::Empty,
            RenderedSpanView::Empty => true,
        }
    }

    /// The visual node of the unit: a paragraph for runs, the node itself for a
    /// composite, an empty column for nothing.
    pub open spec fn render(self) -> VisualView {
        match self {
            RenderedSpanView::Spans(spans) => VisualView::RichText { spans },
            RenderedSpanView::Elem(element, _) => element,
            RenderedSpanView::Empty => empty_column(),
        }
    }

    /// The combination of two neighbours, `self` first.
    pub open spec fn add(self, rhs: RenderedSpanView) -> RenderedSpanView {
        match (self, rhs) {
            (RenderedSpanView::Empty, r) => r,
            (l, RenderedSpanView::Empty) => l,
            (RenderedSpanView::Spans(a), RenderedSpanView::Spans(b)) => RenderedSpanView::Spans(
                a + b,
            ),
            (RenderedSpanView::Spans(a), RenderedSpanView::Elem(element, e)) => flow_row(
                seq![VisualView::RichText { spans: a }] + shown(element, e),
            ),
            (RenderedSpanView::Elem(element, e), RenderedSpanView::Spans(b)) => flow_row(
                shown(element, e) + seq![VisualView::RichText { spans: b }],
            ),
            (RenderedSpanView::Elem(e1, em1), RenderedSpanView::Elem(e2, em2)) => flow_row(
                shown(e1, em1) + shown(e2, em2),
            ),
        }
    }
}

impl RenderedSpan {
    pub fn is_empty(&self) -> (b: bool)
        ensures
            b == self@.is_empty(),
    {
        match self {
            RenderedSpan::Spans(spans) => spans.len() == 0,
            RenderedSpan::Elem(_, e) => e.is_empty(),
            RenderedSpan::Empty => true,
        }
    }

    pub fn render(self) -> (element: Visual)
        ensures
            element@ == self@.render(),
    {
        match self {
            RenderedSpan::Spans(spans) => Visual::rich_text(spans),
            RenderedSpan::Elem(element, _) => element,
            RenderedSpan::Empty => {
                let items: Vec<Visual> = Vec::new();
                assert(visual_views(items@) =~= Seq::empty());
                Visual::column(items, 0, Padding::all(0), None)
            },
        }
    }

    pub fn add(self, rhs: RenderedSpan) -> (sum: RenderedSpan)
        ensures
            sum@ == self@.add(rhs@),
    {
        match (self, rhs) {
            (RenderedSpan::Empty, r) => r,
            (l, RenderedSpan::Empty) => l,
            (RenderedSpan::Spans(mut a), RenderedSpan::Spans(mut b)) => {
                let ghost a0 = a@;
                let ghost b0 = b@;
                a.append(&mut b);
                assert(span_views(a@) =~= span_views(a0) + span_views(b0));
                RenderedSpan::Spans(a)
            },
            (RenderedSpan::Spans(a), RenderedSpan::Elem(element, e)) => {
                let mut items: Vec<Visual> = Vec::new();
                items.push(Visual::rich_text(a));
                if e.has_something() {
                    items.push(element);
                }
                let row = Visual::row(items, 5, true);
                assert(row@ matches VisualView::Row { items: i, .. } && i =~= seq![
                    VisualView::RichText { spans: span_views(a@) },
                ] + shown(element@, e));
                RenderedSpan::Elem(row, Emp::NonEmpty)
            },
            (RenderedSpan::Elem(element, e), RenderedSpan::Spans(b)) => {
                let mut items: Vec<Visual> = Vec::new();
                if e.has_something() {
                    items.push(element);
                }
                items.push(Visual::rich_text(b));
                let row = Visual::row(items, 5, true);
                assert(row@ matches VisualView::Row { items: i, .. } && i =~= shown(element@, e)
                    + seq![VisualView::RichText { spans: span_views(b@) }]);
                RenderedSpan::Elem(row, Emp::NonEmpty)
            },
            (RenderedSpan::Elem(e1, em1), RenderedSpan::Elem(e2, em2)) => {
                let mut items: Vec<Visual> = Vec::new();
                if em1.has_something() {
                    items.push(e1);
                }
                if em2.has_something() {
                    items.push(e2);
                }
                let row = Visual::row(items, 5, true);
                assert(row@ matches VisualView::Row { items: i, .. } && i =~= shown(e1@, em1)
                    + shown(e2@, em2));
                RenderedSpan::Elem(row, Emp::NonEmpty)
            },
        }
    }
}

impl From<Visual> for RenderedSpan {
    fn from(value: Visual) -> (out: RenderedSpan) {
        RenderedSpan::Elem(value, Emp::NonEmpty)
    }
}

impl vstd::std_specs::convert::FromSpecImpl<Visual> for RenderedSpan {
    open spec fn obeys_from_spec() -> bool {
        true
    }

    open spec fn from_spec(value: Visual) -> RenderedSpan {
        RenderedSpan::Elem(value, Emp::NonEmpty)
    }
}

impl Default for RenderedSpan {
    fn default() -> (out: RenderedSpan)
        ensures
            out@ == RenderedSpanView::Empty,
    {
        RenderedSpan::Empty
    }
}

/// Nothing is the identity of the combination, on either side.
pub proof fn lemma_add_identity(unit: RenderedSpanView)
    ensures
        unit.add(RenderedSpanView::Empty) == unit,
        RenderedSpanView::Empty.add(unit) == unit,
{
}

/// Two groups of inline runs merge into one group that holds the runs of the first,
/// then those of the second, each in its old order.
pub proof fn lemma_add_inline(a: Seq<SpanView>, b: Seq<SpanView>)
    ensures
        RenderedSpanView::Spans(a).add(RenderedSpanView::Spans(b)) == RenderedSpanView::Spans(
            a + b,
        ),
        (a + b).len() == a.len() + b.len(),
        forall|i: int| 0 <= i < a.len() ==> (a + b)[i] == a[i],
        forall|i: int| 0 <= i < b.len() ==> (a + b)[a.len() + i] == b[i],
{
}

/// A combination that involves a composite is a wrapping row that shows something, unless
/// the other side is nothing.
pub proof fn lemma_add_composite(element: VisualView, e: Emp, other: RenderedSpanView)
    requires
        other != RenderedSpanView::Empty,
    ensures
        RenderedSpanView::Elem(element, e).add(other) matches RenderedSpanView::Elem(
            VisualView::Row { spacing, wrap, .. },
            em,
        ) && spacing == 5 && wrap && em == Emp::NonEmpty,
        other.add(RenderedSpanView::Elem(element, e)) matches RenderedSpanView::Elem(
            VisualView::Row { spacing, wrap, .. },
            em,
        ) && spacing == 5 && wrap && em == Emp::NonEmpty,
{
}

/// Combining is associative on inline runs and nothing, which is what lets siblings be
/// folded from left to right.
pub proof fn lemma_add_inline_assoc(a: RenderedSpanView, b: RenderedSpanView, c: RenderedSpanView)
    requires
        !(a is Elem),
        !(b is Elem),
        !(c is Elem),
    ensures
        a.add(b).add(c) == a.add(b.add(c)),
{
    match (a, b, c) {
        (
            RenderedSpanView::Spans(x),
            RenderedSpanView::Spans(y),
            RenderedSpanView::Spans(z),
        ) => {
            assert((x + y) + z =~= x + (y + z));
        },
        _ => {},
    }
}

} // verus!
