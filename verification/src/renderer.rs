//! The traversal: walks the document and builds the visual tree.
use crate::context::{ChildAlignment, ChildData, ChildDataFlags};
use crate::dom::{
    attr_views, get_attr, is_block_element, is_node_useless, is_tag, Attribute, DomData, DomNode,
    DomNodeView,
};
use crate::layout::{
    aligned, bullet, child_data, details_interactive, details_static, dropdown_lookup,
    first_summary, flushed, group, link_unit, linked, list_item, placeholder, quote,
    spec_alignment_read, spec_codeblock, spec_draw_details, spec_draw_image, spec_draw_link,
    spec_gather, spec_get_summary_elements, spec_input, spec_render_children,
    spec_render_html_inner, spec_size, spec_traverse_node, toggle_header, toggling, underlined,
    Env, Hooks, Rendered,
};
use crate::span::{Emp, RenderedSpan, RenderedSpanView};
use crate::state::MarkState;
use crate::tags::Tag;
use crate::text::{clean_whitespace, contains_text, push_decimal, str_eq};
use crate::visual::{
    span_views, visual_views, Event, EventView, Font, Length, Padding, Span, Style, Visual,
    VisualView, Weight,
};
use crate::widgets::{link, link_text, underline};
use vstd::prelude::*;
use vstd::string::StringExecFns;

verus! {

/// The views of a sequence of units.
pub open spec fn unit_views(units: Seq<RenderedSpan>) -> Seq<RenderedSpanView> {
    units.map_values(|u: RenderedSpan| u@)
}

/// The text size of a heading weight.
pub fn font_size(weight: u16) -> (size: u16)
    ensures
        size == spec_size(weight),
{
    if weight == 0 {
        16
    } else if weight <= 6 {
        36 - 4 * weight
    } else {
        10
    }
}

/// Reads the `align` attribute of a block into the context.
pub fn alignment_read(data: &mut ChildData, attrs: &Vec<Attribute>)
    ensures
        *final(data) == spec_alignment_read(*old(data), attr_views(attrs@)),
{
    match get_attr(attrs, "align") {
        Some(align) => {
            if str_eq(align, "right") {
                data.alignment = Some(ChildAlignment::Right);
            } else if str_eq(align, "center") || str_eq(align, "centre") {
                data.alignment = Some(ChildAlignment::Center);
            } else if str_eq(align, "left") {
                data.alignment = None;
            }
        },
        None => {},
    }
}

fn draw_input(attrs: &Vec<Attribute>) -> (element: RenderedSpan)
    ensures
        element@ == spec_input(attr_views(attrs@)),
{
    let kind = match get_attr(attrs, "type") {
        Some(k) => k,
        None => "text",
    };
    if str_eq(kind, "checkbox") {
        let checked = get_attr(attrs, "checked").is_some();
        RenderedSpan::Elem(Visual::Checkbox { checked }, Emp::NonEmpty)
    } else {
        let mut label = String::from_str("[HTML todo: <input type=\"");
        label.append(kind);
        label.append("\">]");
        RenderedSpan::Elem(Visual::Text { label, size: None }, Emp::NonEmpty)
    }
}

fn draw_placeholder(name: &str, base: Font) -> (element: RenderedSpan)
    ensures
        element@ == placeholder(name@, base),
{
    let mut text = String::from_str("<");
    text.append(name);
    text.append(" (TODO)>");
    let span = Span {
        text,
        size: None,
        font: Some(
            Font {
                family: base.family,
                weight: Weight::Bold,
                stretch: base.stretch,
                style: base.style,
            },
        ),
        underline: false,
        strikethrough: false,
        link: None,
    };
    let mut spans: Vec<Span> = Vec::new();
    spans.push(span);
    assert(span_views(spans@) == seq![span@]);
    RenderedSpan::Spans(spans)
}

fn draw_quote(body: Visual) -> (element: RenderedSpan)
    ensures
        element@ == quote(body@),
{
    let mut items: Vec<Visual> = Vec::new();
    let space = Visual::Space { width: Length::Fixed(10), height: Length::Shrink };
    items.push(space);
    items.push(body);
    assert(visual_views(items@) == seq![space@, body@]);
    let row = Visual::row(items, 0, false);
    let rule = Visual::VerticalRule { thickness: 2 };
    let mut layers: Vec<Visual> = Vec::new();
    layers.push(row);
    layers.push(rule);
    assert(visual_views(layers@) == seq![row@, rule@]);
    RenderedSpan::Elem(Visual::stack(layers), Emp::NonEmpty)
}

fn draw_list_item(number: Option<usize>, body: Visual) -> (element: RenderedSpan)
    ensures
        element@ == list_item(number, body@),
{
    let mut label = String::new();
    match number {
        Some(n) => {
            push_decimal(&mut label, n);
            label.push('.');
        },
        None => {
            label.push('-');
        },
    }
    assert(label@ == bullet(number));
    let text = Visual::Text { label, size: None };
    let mut items: Vec<Visual> = Vec::new();
    items.push(text);
    items.push(body);
    assert(visual_views(items@) == seq![text@, body@]);
    RenderedSpan::Elem(Visual::row(items, 5, false), Emp::NonEmpty)
}

fn draw_aligned(unit: RenderedSpan, align: ChildAlignment) -> (element: RenderedSpan)
    ensures
        element@ == aligned(unit@, align),
{
    let inner = unit.render();
    let mut items: Vec<Visual> = Vec::new();
    items.push(inner);
    assert(visual_views(items@) == seq![inner@]);
    RenderedSpan::Elem(Visual::column(items, 0, Padding::all(0), Some(align)), Emp::NonEmpty)
}

fn underline_all(spans: Vec<Span>) -> (out: Vec<Span>)
    ensures
        span_views(out@) == underlined(span_views(spans@)),
{
    let mut out: Vec<Span> = Vec::new();
    for s in it: spans
        invariant
            span_views(out@) == underlined(span_views(it.seq().take(it.index()))),
            it.seq() == spans@,
    {
        let ghost k = it.index();
        let ghost before = span_views(out@);
        let t = Span { underline: true, ..s };
        out.push(t);
        assert(it.seq().take(k + 1) == it.seq().take(k).push(s));
        assert(span_views(out@) == before.push(t@));
    }
    assert(spans@.take(spans@.len() as int) == spans@);
    out
}

fn link_all(spans: Vec<Span>, url: &str, clickable: bool) -> (out: Vec<Span>)
    ensures
        span_views(out@) == linked(span_views(spans@), url@, clickable),
{
    let mut out: Vec<Span> = Vec::new();
    for s in it: spans
        invariant
            span_views(out@) == linked(span_views(it.seq().take(it.index())), url@, clickable),
            it.seq() == spans@,
    {
        let ghost k = it.index();
        let ghost before = span_views(out@);
        let t = link_text(s, url.to_owned(), clickable);
        out.push(t);
        assert(it.seq().take(k + 1) == it.seq().take(k).push(s));
        assert(span_views(out@) == before.push(t@));
    }
    assert(spans@.take(spans@.len() as int) == spans@);
    out
}

fn toggle_all(spans: Vec<Span>, id: usize, state: bool) -> (out: Vec<Span>)
    ensures
        span_views(out@) == toggling(span_views(spans@), EventView::DetailsToggle(id, state)),
{
    let mut out: Vec<Span> = Vec::new();
    for s in it: spans
        invariant
            span_views(out@) == toggling(
                span_views(it.seq().take(it.index())),
                EventView::DetailsToggle(id, state),
            ),
            it.seq() == spans@,
    {
        let ghost k = it.index();
        let ghost before = span_views(out@);
        let t = Span { link: Some(Event::DetailsToggle(id, state)), underline: true, ..s };
        out.push(t);
        assert(it.seq().take(k + 1) == it.seq().take(k).push(s));
        assert(span_views(out@) == before.push(t@));
    }
    assert(spans@.take(spans@.len() as int) == spans@);
    out
}

/// A link around what its children rendered to.
pub fn finish_link(href: Option<&str>, childless: bool, children: RenderedSpan, clickable: bool)
    -> (element: RenderedSpan)
    ensures
        element@ == link_unit(
            match href {
                Some(url) => Some(url@),
                None => None,
            },
            childless,
            children@,
            clickable,
        ),
{
    match href {
        Some(url) => {
            if childless {
                let span = link_text(Span::new(url.to_owned()), url.to_owned(), clickable);
                let mut spans: Vec<Span> = Vec::new();
                spans.push(span);
                assert(span_views(spans@) == seq![span@]);
                RenderedSpan::Spans(spans)
            } else {
                match children {
                    RenderedSpan::Spans(n) => RenderedSpan::Spans(link_all(n, url, clickable)),
                    other => RenderedSpan::Elem(link(other.render(), url, clickable), Emp::NonEmpty),
                }
            }
        },
        None => {
            match children {
                RenderedSpan::Spans(n) => RenderedSpan::Spans(underline_all(n)),
                other => {
                    proof {
                        reveal_strlit("");
                        assert(""@ == Seq::<char>::empty());
                    }
                    RenderedSpan::Elem(link(other.render(), "", false), Emp::NonEmpty)
                },
            }
        },
    }
}

/// A collapsible section that can be toggled, around what its header and its body
/// rendered to.
pub fn finish_details(id: usize, expanded: bool, summary: RenderedSpan, body: RenderedSpan) -> (element:
    RenderedSpan)
    ensures
        element@ == details_interactive(id, expanded, summary@, body@),
{
    let header = match summary {
        RenderedSpan::Spans(n) => Visual::rich_text(toggle_all(n, id, !expanded)),
        other => Visual::mouse_area(underline(other.render()), Event::DetailsToggle(id, !expanded)),
    };
    assert(header@ == toggle_header(summary@, EventView::DetailsToggle(id, !expanded)));
    let mut left: Vec<Visual> = Vec::new();
    let mut right: Vec<Visual> = Vec::new();
    left.push(header);
    if expanded {
        let shown = body.render();
        left.push(shown);
        assert(visual_views(left@) == seq![header@, shown@]);
        let glyph = Visual::Text { label: String::from_str("V"), size: Some(12) };
        let rule = Visual::VerticalRule { thickness: 1 };
        right.push(glyph);
        right.push(rule);
        assert(visual_views(right@) == seq![glyph@, rule@]);
    } else {
        assert(visual_views(left@) == seq![header@]);
        let glyph = Visual::Text { label: String::from_str(">"), size: Some(14) };
        right.push(glyph);
        assert(visual_views(right@) == seq![glyph@]);
    }
    let first = Visual::column(left, 0, Padding { top: 0, right: 0, bottom: 5, left: 20 }, None);
    let second = Visual::column(
        right,
        5,
        Padding { top: if expanded { 5 } else { 0 }, right: 0, bottom: 0, left: 5 },
        None,
    );
    let mut layers: Vec<Visual> = Vec::new();
    layers.push(first);
    layers.push(second);
    assert(visual_views(layers@) == seq![first@, second@]);
    RenderedSpan::Elem(Visual::stack(layers), Emp::NonEmpty)
}

fn draw_details_static(body: RenderedSpan) -> (element: RenderedSpan)
    ensures
        element@ == details_static(body@),
{
    let top = Visual::HorizontalRule { thickness: 1 };
    let shown = body.render();
    let bottom = Visual::HorizontalRule { thickness: 1 };
    let mut items: Vec<Visual> = Vec::new();
    items.push(top);
    items.push(shown);
    items.push(bottom);
    assert(visual_views(items@) == seq![top@, shown@, bottom@]);
    RenderedSpan::Elem(Visual::column(items, 10, Padding::all(10), None), Emp::NonEmpty)
}

/// The rows of a finished group as one unit.
pub fn finish_group(rows: Vec<RenderedSpan>, spacing: u16) -> (element: RenderedSpan)
    ensures
        element@ == group(unit_views(rows@), spacing),
{
    let mut rows = rows;
    if rows.len() == 0 {
        RenderedSpan::Empty
    } else if rows.len() == 1 {
        match rows.pop() {
            Some(row) => row,
            None => RenderedSpan::Empty,
        }
    } else {
        let mut items: Vec<Visual> = Vec::new();
        for row in it: rows
            invariant
                it.seq() == rows@,
                visual_views(items@) == unit_views(it.seq().take(it.index())).map_values(
                    |u: RenderedSpanView| u.render(),
                ),
        {
            let ghost k = it.index();
            let ghost before = visual_views(items@);
            let shown = row.render();
            items.push(shown);
            assert(it.seq().take(k + 1) == it.seq().take(k).push(row));
            assert(visual_views(items@) == before.push(shown@));
        }
        assert(rows@.take(rows@.len() as int) == rows@);
        RenderedSpan::Elem(Visual::column(items, spacing, Padding::all(0), None), Emp::NonEmpty)
    }
}

/// The first step of a lookup stays the answer however far the lookup goes on.
proof fn lemma_first_summary_stable(children: Seq<DomNodeView>, found: nat, upto: nat)
    requires
        first_summary(children, found) is Some,
        found <= upto <= children.len(),
    ensures
        first_summary(children, upto) == first_summary(children, found),
    decreases upto,
{
    if upto > found {
        lemma_first_summary_stable(children, found, (upto - 1) as nat);
    }
}

/// The widget that is built for every frame: a document state together with the host's
/// choices, ready to be rendered.
pub struct MarkWidget<'a, A> {
    state: &'a MarkState<A>,
    font: Font,
    font_mono: Font,
    hooks: Hooks,
    spacing: u16,
    current_dropdown_id: usize,
}

impl<'a, A> MarkWidget<'a, A> {
    /// What a traversal reads: the hooks, the spacing and the document state.
    pub closed spec fn env(self) -> Env {
        Env {
            hooks: self.hooks,
            font: self.font,
            font_mono: self.font_mono,
            spacing: self.spacing,
            code_blocks: self.state@.code_blocks,
            dropdown_state: self.state@.dropdown_state,
        }
    }

    /// The id that the next collapsible section gets.
    pub closed spec fn dropdown_id(self) -> usize {
        self.current_dropdown_id
    }

    /// The tree of the document that the widget shows.
    pub closed spec fn document(self) -> DomNodeView {
        self.state@.dom
    }

    /// What holds after rendering something whose result is `r`: the element is its unit,
    /// the counter of collapsible sections has moved on to its next id, and nothing else
    /// has changed.
    pub open spec fn rendered(self, after: Self, element: RenderedSpan, r: Rendered) -> bool {
        &&& after.env() == self.env()
        &&& after.document() == self.document()
        &&& after.dropdown_id() == r.next_id
        &&& element@ == r.unit
    }

    /// A widget for the given state, with no hook registered, the default fonts, and 5
    /// pixels between rows.
    pub fn new(state: &'a MarkState<A>) -> (widget: Self)
        ensures
            widget.env() == (Env {
                hooks: Hooks {
                    clicking_link: false,
                    drawing_image: false,
                    copying_text: false,
                    updating_state: false,
                },
                font: Font::spec_sans_serif(),
                font_mono: Font::spec_monospace(),
                spacing: 5,
                code_blocks: state@.code_blocks,
                dropdown_state: state@.dropdown_state,
            }),
            widget.document() == state@.dom,
            widget.dropdown_id() == 0,
    {
        MarkWidget {
            state,
            font: Font::sans_serif(),
            font_mono: Font::monospace(),
            hooks: Hooks {
                clicking_link: false,
                drawing_image: false,
                copying_text: false,
                updating_state: false,
            },
            spacing: 5,
            current_dropdown_id: 0,
        }
    }

    /// Sets the font of the document's text. Bold and italic text use variations of it.
    pub fn font(self, font: Font) -> (widget: Self)
        ensures
            widget.env() == (Env { font, ..self.env() }),
            widget.document() == self.document(),
            widget.dropdown_id() == self.dropdown_id(),
    {
        MarkWidget { font, ..self }
    }

    /// Sets the font of code.
    pub fn font_mono(self, font: Font) -> (widget: Self)
        ensures
            widget.env() == (Env { font_mono: font, ..self.env() }),
            widget.document() == self.document(),
            widget.dropdown_id() == self.dropdown_id(),
    {
        MarkWidget { font_mono: font, ..self }
    }

    /// Tells that the host handles clicks on links.
    pub fn on_clicking_link(self) -> (widget: Self)
        ensures
            widget.env() == (Env {
                hooks: Hooks { clicking_link: true, ..self.env().hooks },
                ..self.env()
            }),
            widget.document() == self.document(),
            widget.dropdown_id() == self.dropdown_id(),
    {
        MarkWidget { hooks: Hooks { clicking_link: true, ..self.hooks }, ..self }
    }

    /// Tells that the host draws images.
    pub fn on_drawing_image(self) -> (widget: Self)
        ensures
            widget.env() == (Env {
                hooks: Hooks { drawing_image: true, ..self.env().hooks },
                ..self.env()
            }),
            widget.document() == self.document(),
            widget.dropdown_id() == self.dropdown_id(),
    {
        MarkWidget { hooks: Hooks { drawing_image: true, ..self.hooks }, ..self }
    }

    /// Tells that the host handles requests to copy code.
    pub fn on_copying_text(self) -> (widget: Self)
        ensures
            widget.env() == (Env {
                hooks: Hooks { copying_text: true, ..self.env().hooks },
                ..self.env()
            }),
            widget.document() == self.document(),
            widget.dropdown_id() == self.dropdown_id(),
    {
        MarkWidget { hooks: Hooks { copying_text: true, ..self.hooks }, ..self }
    }

    /// Tells that the host forwards updates to the document state.
    pub fn on_updating_state(self) -> (widget: Self)
        ensures
            widget.env() == (Env {
                hooks: Hooks { updating_state: true, ..self.env().hooks },
                ..self.env()
            }),
            widget.document() == self.document(),
            widget.dropdown_id() == self.dropdown_id(),
    {
        MarkWidget { hooks: Hooks { updating_state: true, ..self.hooks }, ..self }
    }

    /// Sets the room between the rows of a group of children.
    pub fn paragraph_spacing(self, spacing: u16) -> (widget: Self)
        ensures
            widget.env() == (Env { spacing, ..self.env() }),
            widget.document() == self.document(),
            widget.dropdown_id() == self.dropdown_id(),
    {
        MarkWidget { spacing, ..self }
    }

    /// Renders a node under the inherited formatting `data`.
    pub fn traverse_node(&mut self, node: &DomNode, data: ChildData) -> (element: RenderedSpan)
        ensures
            old(self).rendered(
                *final(self),
                element,
                spec_traverse_node(node@, data, old(self).env(), old(self).dropdown_id()),
            ),
        decreases node, 4int,
    {
        match &node.data {
            DomData::Document => self.render_children(node, data, false),
            DomData::Text { contents } => {
                let size = font_size(data.heading_weight);
                if data.flags.contains(ChildDataFlags::monospace()) {
                    self.codeblock(
                        contents.clone(),
                        size,
                        !data.flags.contains(ChildDataFlags::keep_whitespace()),
                    )
                } else {
                    let text = if data.flags.contains(ChildDataFlags::keep_whitespace()) {
                        contents.clone()
                    } else {
                        clean_whitespace(contents.as_str())
                    };
                    let mut f = self.font;
                    if data.flags.contains(ChildDataFlags::bold()) {
                        f.weight = Weight::Bold;
                    }
                    if data.flags.contains(ChildDataFlags::italic()) {
                        f.style = Style::Italic;
                    }
                    let span = Span {
                        text,
                        size: Some(size),
                        font: Some(f),
                        underline: data.flags.contains(ChildDataFlags::underline()),
                        strikethrough: data.flags.contains(ChildDataFlags::strikethrough()),
                        link: None,
                    };
                    let mut spans: Vec<Span> = Vec::new();
                    spans.push(span);
                    assert(span_views(spans@) == seq![span@]);
                    RenderedSpan::Spans(spans)
                }
            },
            DomData::Element { name, attrs } => self.render_html_inner(
                name.as_str(),
                attrs,
                node,
                data,
            ),
            DomData::Other => RenderedSpan::Empty,
        }
    }

    /// Renders an element with the given name and attributes.
    pub fn render_html_inner(
        &mut self,
        name: &str,
        attrs: &Vec<Attribute>,
        node: &DomNode,
        data: ChildData,
    ) -> (element: RenderedSpan)
        ensures
            old(self).rendered(
                *final(self),
                element,
                spec_render_html_inner(
                    name@,
                    attr_views(attrs@),
                    node@,
                    data,
                    old(self).env(),
                    old(self).dropdown_id(),
                ),
            ),
        decreases node, 3int,
    {
        let mut data = data;
        let block_element = is_block_element(node);
        if block_element {
            alignment_read(&mut data, attrs);
        }
        let inner = match Tag::from_name(name) {
            Tag::Transparent => self.render_children(node, data, false),
            Tag::Center => {
                let mut centred = data;
                centred.alignment = Some(ChildAlignment::Center);
                self.render_children(node, centred, false)
            },
            Tag::Pre => self.render_children(
                node,
                data.insert(ChildDataFlags::keep_whitespace()),
                false,
            ),
            Tag::Heading(weight) => self.render_children(node, data.heading(weight), false),
            Tag::Blockquote => {
                let body = self.render_children(node, data, false);
                draw_quote(body.render())
            },
            Tag::Bold => self.render_children(node, data.insert(ChildDataFlags::bold()), false),
            Tag::Italic => self.render_children(node, data.insert(ChildDataFlags::italic()), false),
            Tag::Underline => self.render_children(
                node,
                data.insert(ChildDataFlags::underline()),
                false,
            ),
            Tag::Strikethrough => self.render_children(
                node,
                data.insert(ChildDataFlags::strikethrough()),
                false,
            ),
            Tag::Code => self.render_children(
                node,
                data.insert(ChildDataFlags::monospace()),
                false,
            ),
            Tag::Details => self.draw_details(node, data),
            Tag::Anchor => self.draw_link(node, attrs, data),
            Tag::Image => self.draw_image(attrs),
            Tag::LineBreak => {
                let items: Vec<Visual> = Vec::new();
                assert(visual_views(items@) == Seq::<VisualView>::empty());
                RenderedSpan::Elem(Visual::column(items, 0, Padding::all(0), None), Emp::NonEmpty)
            },
            Tag::Rule => RenderedSpan::Elem(Visual::HorizontalRule { thickness: 4 }, Emp::NonEmpty),
            Tag::Hidden => RenderedSpan::Empty,
            Tag::Input => draw_input(attrs),
            Tag::UnorderedList => {
                let mut plain = data;
                plain.li_ordered_number = None;
                self.render_children(node, plain, false)
            },
            Tag::OrderedList => self.render_children(node, data.ordered(), false),
            Tag::ListItem => {
                let body = self.render_children(node, data, false);
                draw_list_item(data.li_ordered_number, body.render())
            },
            Tag::Unknown => draw_placeholder(name, self.font),
        };
        match data.alignment {
            Some(align) => {
                if block_element {
                    draw_aligned(inner, align)
                } else {
                    inner
                }
            },
            None => inner,
        }
    }

    fn draw_details(&mut self, node: &DomNode, data: ChildData) -> (element: RenderedSpan)
        ensures
            old(self).rendered(
                *final(self),
                element,
                spec_draw_details(node@, data, old(self).env(), old(self).dropdown_id()),
            ),
        decreases node, 2int,
    {
        broadcast use vstd::std_specs::hash::group_hash_axioms;

        let id = self.current_dropdown_id;
        if id < usize::MAX {
            self.current_dropdown_id = id + 1;
        }
        let state = match self.state.dropdown_state().get(&id) {
            Some(expanded) => Some(*expanded),
            None => None,
        };
        assert(state == dropdown_lookup(old(self).env(), id));
        match state {
            Some(expanded) => {
                if self.hooks.updating_state {
                    let summary = self.get_summary_elements(node, data);
                    let body = self.render_children(node, data, true);
                    return finish_details(id, expanded, summary, body);
                }
            },
            None => {},
        }
        let body = self.render_children(node, data, false);
        draw_details_static(body)
    }

    fn get_summary_elements(&mut self, node: &DomNode, data: ChildData) -> (element: RenderedSpan)
        ensures
            old(self).rendered(
                *final(self),
                element,
                spec_get_summary_elements(node@, data, old(self).env(), old(self).dropdown_id()),
            ),
        decreases node, 1int,
    {
        let mut k: usize = 0;
        while k < node.children.len()
            invariant
                k <= node.children.len(),
                node@.children.len() == node.children@.len(),
                first_summary(node@.children, k as nat) is None,
                *self == *old(self),
            decreases node.children.len() - k,
        {
            proof {
                node.lemma_child(k as int);
            }
            if is_tag(&node.children[k], "summary") {
                proof {
                    lemma_first_summary_stable(
                        node@.children,
                        (k + 1) as nat,
                        node@.children.len(),
                    );
                }
                return self.traverse_node(&node.children[k], data);
            }
            k = k + 1;
        }
        RenderedSpan::Empty
    }

    /// Renders an image.
    pub fn draw_image(&self, attrs: &Vec<Attribute>) -> (element: RenderedSpan)
        ensures
            element@ == spec_draw_image(attr_views(attrs@), self.env()),
    {
        match get_attr(attrs, "src") {
            Some(url) => {
                if url.unicode_len() > 0 && self.hooks.drawing_image {
                    let width = match get_attr(attrs, "width") {
                        Some(w) => Some(w.to_owned()),
                        None => None,
                    };
                    let height = match get_attr(attrs, "height") {
                        Some(h) => Some(h.to_owned()),
                        None => None,
                    };
                    RenderedSpan::Elem(
                        Visual::Image { url: url.to_owned(), width, height },
                        Emp::NonEmpty,
                    )
                } else {
                    RenderedSpan::Empty
                }
            },
            None => RenderedSpan::Empty,
        }
    }

    fn draw_link(&mut self, node: &DomNode, attrs: &Vec<Attribute>, data: ChildData) -> (element:
        RenderedSpan)
        ensures
            old(self).rendered(
                *final(self),
                element,
                spec_draw_link(
                    node@,
                    attr_views(attrs@),
                    data,
                    old(self).env(),
                    old(self).dropdown_id(),
                ),
            ),
        decreases node, 2int,
    {
        let children_empty = node.children.len() == 0;
        let children = self.render_children(node, data, false);
        finish_link(get_attr(attrs, "href"), children_empty, children, self.hooks.clicking_link)
    }

    /// Renders the children of a node into one unit. With `skip_summary` the first
    /// `summary` child is left out.
    pub fn render_children(&mut self, node: &DomNode, data: ChildData, skip_summary: bool) -> (element:
        RenderedSpan)
        ensures
            old(self).rendered(
                *final(self),
                element,
                spec_render_children(
                    node@,
                    data,
                    skip_summary,
                    old(self).env(),
                    old(self).dropdown_id(),
                ),
            ),
        decreases node, 1int,
    {
        let ghost env = self.env();
        let ghost id = self.dropdown_id();
        let mut column: Vec<RenderedSpan> = Vec::new();
        let mut row = RenderedSpan::Empty;
        let mut skipped_summary = false;
        let mut i: usize = 0;
        let mut k: usize = 0;
        assert(unit_views(column@) == Seq::<RenderedSpanView>::empty());
        while k < node.children.len()
            invariant
                k <= node.children.len(),
                node@.children.len() == node.children@.len(),
                i <= k,
                self.env() == env,
                self.document() == old(self).document(),
                unit_views(column@) == spec_gather(node@, data, skip_summary, env, id, k as nat).column,
                row@ == spec_gather(node@, data, skip_summary, env, id, k as nat).row,
                i == spec_gather(node@, data, skip_summary, env, id, k as nat).count,
                skipped_summary == spec_gather(
                    node@,
                    data,
                    skip_summary,
                    env,
                    id,
                    k as nat,
                ).skipped_summary,
                self.dropdown_id() == spec_gather(node@, data, skip_summary, env, id, k as nat).next_id,
            decreases node.children.len() - k,
        {
            let item = &node.children[k];
            proof {
                node.lemma_child(k as int);
            }
            let ghost before = spec_gather(node@, data, skip_summary, env, id, k as nat);
            if is_node_useless(item) {
            } else if skip_summary && !skipped_summary && is_tag(item, "summary") {
                skipped_summary = true;
            } else {
                let mut own = data;
                if own.li_ordered_number.is_some() {
                    own.li_ordered_number = Some(i + 1);
                }
                assert(own == child_data(data, before.count));
                let element = self.traverse_node(item, own);
                if is_block_element(item) {
                    if !row.is_empty() {
                        column.push(row);
                        row = RenderedSpan::Empty;
                    }
                    assert(unit_views(column@) == flushed(before.column, before.row));
                    let ghost flushed_rows = unit_views(column@);
                    if !element.is_empty() {
                        column.push(element);
                    }
                    assert(unit_views(column@) == flushed(flushed_rows, element@));
                } else {
                    row = row.add(element);
                }
                i = i + 1;
            }
            k = k + 1;
        }
        let ghost rows = unit_views(column@);
        if !row.is_empty() {
            column.push(row);
        }
        assert(unit_views(column@) == flushed(rows, row@));
        finish_group(column, self.spacing)
    }

    fn codeblock(&self, code: String, size: u16, inline: bool) -> (element: RenderedSpan)
        ensures
            element@ == spec_codeblock(code@, size, inline, self.env()),
    {
        if !inline && self.hooks.updating_state && contains_text(
            self.state.code_blocks(),
            code.as_str(),
        ) {
            RenderedSpan::Elem(
                Visual::TextEditor {
                    key: code,
                    text_size: size,
                    font: self.font_mono,
                    padding: Padding::all(5),
                },
                Emp::NonEmpty,
            )
        } else {
            let link = if self.hooks.copying_text {
                Some(Event::TextCopied(code.clone()))
            } else {
                None
            };
            let span = Span {
                text: code,
                size: Some(size),
                font: Some(self.font_mono),
                underline: false,
                strikethrough: false,
                link,
            };
            let mut spans: Vec<Span> = Vec::new();
            spans.push(span);
            assert(span_views(spans@) == seq![span@]);
            RenderedSpan::Spans(spans)
        }
    }

    /// Renders the whole document into one visual node.
    pub fn render(self) -> (element: Visual)
        ensures
            element@ == spec_traverse_node(
                self.document(),
                ChildData::initial(),
                self.env(),
                self.dropdown_id(),
            ).unit.render(),
    {
        let mut widget = self;
        let unit = widget.traverse_node(widget.state.dom(), ChildData::default());
        unit.render()
    }
}

} // verus!
