//! The visual tree that a traversal produces: owned nodes that name the host toolkit's
//! primitives (text runs, rows, columns, stacks, rules, buttons, editable text fields).
use crate::context::ChildAlignment;
use vstd::prelude::*;

verus! {

/// What the host is told when the user acts on a visual element.
#[derive(Debug, Clone, PartialEq, Eq)]
pub enum Event {
    /// A link was activated; carries its URL.
    LinkClicked(String),
    /// A piece of code was picked for copying; carries its text.
    TextCopied(String),
    /// A collapsible section asks to be set to the given state; carries its id.
    DetailsToggle(usize, bool),
}

pub enum EventView {
    LinkClicked(Seq<char>),
    TextCopied(Seq<char>),
    DetailsToggle(usize, bool),
}

impl View for Event {
    type V = EventView;

    open spec fn view(&self) -> EventView {
        match self {
            Event::LinkClicked(url) => EventView::LinkClicked(url@),
            Event::TextCopied(text) => EventView::TextCopied(text@),
            Event::DetailsToggle(id, state) => EventView::DetailsToggle(*id, *state),
        }
    }
}

/// The view of an optional event.
pub open spec fn event_view(e: Option<Event>) -> Option<EventView> {
    match e {
        Some(e) => Some(e@),
        None => None,
    }
}

/// The view of an optional text.
pub open spec fn text_view(t: Option<String>) -> Option<Seq<char>> {
    match t {
        Some(t) => Some(t@),
        None => None,
    }
}

/// A font family.
#[derive(Debug, Clone, Copy, PartialEq, Eq)]
pub enum Family {
    /// The family with this name.
    Name(&'static str),
    Serif,
    SansSerif,
    Cursive,
    Fantasy,
    Monospace,
}

/// How heavy the strokes of a font are.
#[derive(Debug, Clone, Copy, PartialEq, Eq, Structural)]
pub enum Weight {
    Thin,
    ExtraLight,
    Light,
    Normal,
    Medium,
    Semibold,
    Bold,
    ExtraBold,
    Black,
}

/// How wide the glyphs of a font are.
#[derive(Debug, Clone, Copy, PartialEq, Eq, Structural)]
pub enum Stretch {
    UltraCondensed,
    ExtraCondensed,
    Condensed,
    SemiCondensed,
    Normal,
    SemiExpanded,
    Expanded,
    ExtraExpanded,
    UltraExpanded,
}

/// Whether a font is upright or slanted.
#[derive(Debug, Clone, Copy, PartialEq, Eq, Structural)]
pub enum Style {
    Normal,
    Italic,
    Oblique,
}

/// A font, as the host toolkit describes one.
#[derive(Debug, Clone, Copy, PartialEq, Eq)]
pub struct Font {
    pub family: Family,
    pub weight: Weight,
    pub stretch: Stretch,
    pub style: Style,
}

impl Font {
    /// The upright sans-serif font of normal weight and width.
    pub open spec fn spec_sans_serif() -> Font {
        Font {
            family: Family::SansSerif,
            weight: Weight::Normal,
            stretch: Stretch::Normal,
            style: Style::Normal,
        }
    }

    /// The upright monospaced font of normal weight and width.
    pub open spec fn spec_monospace() -> Font {
        Font { family: Family::Monospace, ..Font::spec_sans_serif() }
    }

    #[verifier::when_used_as_spec(spec_sans_serif)]
    pub fn sans_serif() -> (font: Font)
        ensures
            font == Font::spec_sans_serif(),
    {
        Font {
            family: Family::SansSerif,
            weight: Weight::Normal,
            stretch: Stretch::Normal,
            style: Style::Normal,
        }
    }

    #[verifier::when_used_as_spec(spec_monospace)]
    pub fn monospace() -> (font: Font)
        ensures
            font == Font::spec_monospace(),
    {
        Font {
            family: Family::Monospace,
            weight: Weight::Normal,
            stretch: Stretch::Normal,
            style: Style::Normal,
        }
    }

    /// A sans-serif font of the family with the given name.
    pub fn with_name(name: &'static str) -> (font: Font)
        ensures
            font == (Font { family: Family::Name(name), ..Font::spec_sans_serif() }),
    {
        Font {
            family: Family::Name(name),
            weight: Weight::Normal,
            stretch: Stretch::Normal,
            style: Style::Normal,
        }
    }
}

/// One styled run of text inside a paragraph.
#[derive(Debug, Clone, PartialEq, Eq)]
pub struct Span {
    pub text: String,
    /// The text size; `None` leaves it to the host.
    pub size: Option<u16>,
    /// The font; `None` leaves it to the host.
    pub font: Option<Font>,
    pub underline: bool,
    pub strikethrough: bool,
    /// What activating the run reports; `None` makes it inert.
    pub link: Option<Event>,
}

pub struct SpanView {
    pub text: Seq<char>,
    pub size: Option<u16>,
    pub font: Option<Font>,
    pub underline: bool,
    pub strikethrough: bool,
    pub link: Option<EventView>,
}

impl View for Span {
    type V = SpanView;

    open spec fn view(&self) -> SpanView {
        SpanView {
            text: self.text@,
            size: self.size,
            font: self.font,
            underline: self.underline,
            strikethrough: self.strikethrough,
            link: event_view(self.link),
        }
    }
}

impl SpanView {
    /// A run of text with no styling at all.
    pub open spec fn plain(text: Seq<char>) -> SpanView {
        SpanView {
            text,
            size: None,
            font: None,
            underline: false,
            strikethrough: false,
            link: None,
        }
    }
}

impl Span {
    /// A run of text with no styling at all.
    pub fn new(text: String) -> (span: Span)
        ensures
            span@ == SpanView::plain(text@),
    {
        Span {
            text,
            size: None,
            font: None,
            underline: false,
            strikethrough: false,
            link: None,
        }
    }
}

/// The views of a sequence of spans.
pub open spec fn span_views(spans: Seq<Span>) -> Seq<SpanView> {
    spans.map_values(|s: Span| s@)
}

/// An extent along one axis.
#[derive(Debug, Clone, Copy, PartialEq, Eq, Structural)]
pub enum Length {
    /// As small as the content allows.
    Shrink,
    /// All the room there is.
    Fill,
    /// This many pixels.
    Fixed(u16),
}

/// Empty room around a container's content, in pixels.
#[derive(Debug, Clone, Copy, PartialEq, Eq, Structural)]
pub struct Padding {
    pub top: u16,
    pub right: u16,
    pub bottom: u16,
    pub left: u16,
}

impl Padding {
    pub open spec fn spec_all(p: u16) -> Padding {
        Padding { top: p, right: p, bottom: p, left: p }
    }

    /// The same padding on all four sides.
    #[verifier::when_used_as_spec(spec_all)]
    pub fn all(p: u16) -> (out: Padding)
        ensures
            out == Padding::spec_all(p),
    {
        Padding { top: p, right: p, bottom: p, left: p }
    }
}

/// A node of the visual tree.
#[derive(Debug, PartialEq, Eq)]
pub enum Visual {
    /// A paragraph of styled runs that flow and wrap together.
    RichText { spans: Vec<Span> },
    /// A single unstyled label.
    Text { label: String, size: Option<u16> },
    /// Items side by side; `wrap` lets them break onto further lines.
    Row { items: Vec<Visual>, spacing: u16, wrap: bool },
    /// Items below one another. With an alignment the column takes the full width and
    /// places its items accordingly.
    Column { items: Vec<Visual>, spacing: u16, padding: Padding, align: Option<ChildAlignment> },
    /// Layers drawn over one another, the first at the bottom.
    Stack { layers: Vec<Visual> },
    /// Empty room.
    Space { width: Length, height: Length },
    /// A horizontal line of the given thickness.
    HorizontalRule { thickness: u16 },
    /// A vertical line of the given thickness.
    VerticalRule { thickness: u16 },
    Checkbox { checked: bool },
    /// A clickable container; inert without an event.
    Button { content: Box<Visual>, on_press: Option<Event>, padding: Padding },
    /// A container that reports presses anywhere on it.
    MouseArea { content: Box<Visual>, pressed: Event },
    /// An editable text field bound to the code block with this text.
    TextEditor { key: String, text_size: u16, font: Font, padding: Padding },
    /// An image that the host draws; width and height as the document wrote them.
    Image { url: String, width: Option<String>, height: Option<String> },
}

pub enum VisualView {
    RichText { spans: Seq<SpanView> },
    Text { label: Seq<char>, size: Option<u16> },
    Row { items: Seq<VisualView>, spacing: u16, wrap: bool },
    Column {
        items: Seq<VisualView>,
        spacing: u16,
        padding: Padding,
        align: Option<ChildAlignment>,
    },
    Stack { layers: Seq<VisualView> },
    Space { width: Length, height: Length },
    HorizontalRule { thickness: u16 },
    VerticalRule { thickness: u16 },
    Checkbox { checked: bool },
    Button { content: Box<VisualView>, on_press: Option<EventView>, padding: Padding },
    MouseArea { content: Box<VisualView>, pressed: EventView },
    TextEditor { key: Seq<char>, text_size: u16, font: Font, padding: Padding },
    Image { url: Seq<char>, width: Option<Seq<char>>, height: Option<Seq<char>> },
}

impl Visual {
    /// The mathematical tree that this node stands for.
    pub open spec fn model(self) -> VisualView
        decreases self,
    {
        match self {
            Visual::RichText { spans } => VisualView::RichText { spans: span_views(spans@) },
            Visual::Text { label, size } => VisualView::Text { label: label@, size },
            Visual::Row { items, spacing, wrap } => VisualView::Row {
                items: Seq::new(
                    items@.len(),
                    |i: int| if 0 <= i < items@.len() { items@[i].model() } else { arbitrary() },
                ),
                spacing,
                wrap,
            },
            Visual::Column { items, spacing, padding, align } => VisualView::Column {
                items: Seq::new(
                    items@.len(),
                    |i: int| if 0 <= i < items@.len() { items@[i].model() } else { arbitrary() },
                ),
                spacing,
                padding,
                align,
            },
            Visual::Stack { layers } => VisualView::Stack {
                layers: Seq::new(
                    layers@.len(),
                    |i: int| if 0 <= i < layers@.len() { layers@[i].model() } else { arbitrary() },
                ),
            },
            Visual::Space { width, height } => VisualView::Space { width, height },
            Visual::HorizontalRule { thickness } => VisualView::HorizontalRule { thickness },
            Visual::VerticalRule { thickness } => VisualView::VerticalRule { thickness },
            Visual::Checkbox { checked } => VisualView::Checkbox { checked },
            Visual::Button { content, on_press, padding } => VisualView::Button {
                content: Box::new((*content).model()),
                on_press: event_view(on_press),
                padding,
            },
            Visual::MouseArea { content, pressed } => VisualView::MouseArea {
                content: Box::new((*content).model()),
                pressed: pressed@,
            },
            Visual::TextEditor { key, text_size, font, padding } => VisualView::TextEditor {
                key: key@,
                text_size,
                font,
                padding,
            },
            Visual::Image { url, width, height } => VisualView::Image {
                url: url@,
                width: text_view(width),
                height: text_view(height),
            },
        }
    }
}

impl View for Visual {
    type V = VisualView;

    open spec fn view(&self) -> VisualView {
        self.model()
    }
}

/// The views of a sequence of visual nodes.
pub open spec fn visual_views(items: Seq<Visual>) -> Seq<VisualView> {
    items.map_values(|v: Visual| v@)
}

impl Visual {
    pub fn rich_text(spans: Vec<Span>) -> (v: Visual)
        ensures
            v@ == (VisualView::RichText { spans: span_views(spans@) }),
    {
        Visual::RichText { spans }
    }

    pub fn text(label: &str, size: Option<u16>) -> (v: Visual)
        ensures
            v@ == (VisualView::Text { label: label@, size }),
    {
        Visual::Text { label: label.to_owned(), size }
    }

    pub fn row(items: Vec<Visual>, spacing: u16, wrap: bool) -> (v: Visual)
        ensures
            v@ == (VisualView::Row { items: visual_views(items@), spacing, wrap }),
    {
        let v = Visual::Row { items, spacing, wrap };
        assert(v@ matches VisualView::Row { items: i, .. } && i =~= visual_views(items@));
        v
    }

    pub fn column(
        items: Vec<Visual>,
        spacing: u16,
        padding: Padding,
        align: Option<ChildAlignment>,
    ) -> (v: Visual)
        ensures
            v@ == (VisualView::Column { items: visual_views(items@), spacing, padding, align }),
    {
        let v = Visual::Column { items, spacing, padding, align };
        assert(v@ matches VisualView::Column { items: i, .. } && i =~= visual_views(items@));
        v
    }

    pub fn stack(layers: Vec<Visual>) -> (v: Visual)
        ensures
            v@ == (VisualView::Stack { layers: visual_views(layers@) }),
    {
        let v = Visual::Stack { layers };
        assert(v@ matches VisualView::Stack { layers: l } && l =~= visual_views(layers@));
        v
    }

    pub fn button(content: Visual, on_press: Option<Event>, padding: Padding) -> (v: Visual)
        ensures
            v@ == (VisualView::Button {
                content: Box::new(content@),
                on_press: event_view(on_press),
                padding,
            }),
    {
        Visual::Button { content: Box::new(content), on_press, padding }
    }

    pub fn mouse_area(content: Visual, pressed: Event) -> (v: Visual)
        ensures
            v@ == (VisualView::MouseArea { content: Box::new(content@), pressed: pressed@ }),
    {
        Visual::MouseArea { content: Box::new(content), pressed }
    }
}

} // verus!
