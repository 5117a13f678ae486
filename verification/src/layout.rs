//! What a traversal of the document produces, as a mathematical function of the tree, the
//! inherited formatting, the host's hooks and the document state.
use crate::context::{ChildAlignment, ChildData, ChildDataFlags};
use crate::dom::{spec_get_attr, spec_has_attr, AttributeView, DomDataView, DomNodeView};
use crate::span::{empty_column, Emp, RenderedSpanView};
use crate::tags::Tag;
use crate::text::{spec_clean_whitespace, spec_decimal};
use crate::visual::{EventView, Font, Length, Padding, SpanView, Style, VisualView, Weight};
use crate::widgets::{spec_link, spec_link_text, spec_underline};
use vstd::prelude::*;

verus! {

/// Which of the host's hooks are registered. A feature whose hook is missing degrades to
/// an inert rendering.
#[derive(Debug, Clone, Copy, PartialEq, Eq, Structural)]
pub struct Hooks {
    /// The host handles clicks on links.
    pub clicking_link: bool,
    /// The host draws images.
    pub drawing_image: bool,
    /// The host handles requests to copy code.
    pub copying_text: bool,
    /// The host forwards updates to the document state.
    pub updating_state: bool,
}

/// Everything a traversal reads besides the node and its inherited formatting.
pub struct Env {
    pub hooks: Hooks,
    /// The font of the document's text.
    pub font: Font,
    /// The font of code.
    pub font_mono: Font,
    /// The room between the rows of a group of children.
    pub spacing: u16,
    /// The texts of the code blocks that have editable content.
    pub code_blocks: Seq<Seq<char>>,
    /// Whether each collapsible section is expanded, by id.
    pub dropdown_state: Map<usize, bool>,
}

/// The result of rendering a node: the unit, and the id that the next collapsible
/// section will get.
pub struct Rendered {
    pub unit: RenderedSpanView,
    pub next_id: usize,
}

/// The id after `id`. The counter stops at the largest value a machine word holds.
pub open spec fn next_id(id: usize) -> usize {
    if id < usize::MAX {
        (id + 1) as usize
    } else {
        id
    }
}

/// The text size of a heading weight: 16 for body text, `36 - 4 * weight` for the
/// headings 1 to 6, and 10, below any of them, from weight 7 on.
pub open spec fn spec_size(weight: u16) -> u16 {
    if weight == 0 {
        16
    } else if weight <= 6 {
        (36 - 4 * weight) as u16
    } else {
        10
    }
}

/// The font of document text under the inherited flags: the base font, bold where the text
/// is bold, italic where it is italic.
pub open spec fn styled(base: Font, flags: ChildDataFlags) -> Font {
    Font {
        weight: if flags.has(ChildDataFlags::spec_bold()) {
            Weight::Bold
        } else {
            base.weight
        },
        style: if flags.has(ChildDataFlags::spec_italic()) {
            Style::Italic
        } else {
            base.style
        },
        ..base
    }
}

/// A run of document text, styled by the inherited flags.
pub open spec fn text_span(text: Seq<char>, size: u16, flags: ChildDataFlags, base: Font)
    -> SpanView {
    SpanView {
        text,
        size: Some(size),
        font: Some(styled(base, flags)),
        underline: flags.has(ChildDataFlags::spec_underline()),
        strikethrough: flags.has(ChildDataFlags::spec_strikethrough()),
        link: None,
    }
}

/// Code that is not editable: one run in the code font, which asks to be copied when
/// it is activated and the host listens.
pub open spec fn code_span(code: Seq<char>, size: u16, font: Font, copying_text: bool)
    -> SpanView {
    SpanView {
        text: code,
        size: Some(size),
        font: Some(font),
        underline: false,
        strikethrough: false,
        link: if copying_text {
            Some(EventView::TextCopied(code))
        } else {
            None
        },
    }
}

/// A piece of code. A block (not `inline`) whose text has editable content, under a host
/// that forwards updates, is an editable field; anything else is a plain run.
pub open spec fn spec_codeblock(code: Seq<char>, size: u16, inline: bool, env: Env)
    -> RenderedSpanView {
    if !inline && env.code_blocks.contains(code) && env.hooks.updating_state {
        RenderedSpanView::Elem(
            VisualView::TextEditor {
                key: code,
                text_size: size,
                font: env.font_mono,
                padding: Padding::spec_all(5),
            },
            Emp::NonEmpty,
        )
    } else {
        RenderedSpanView::Spans(seq![code_span(code, size, env.font_mono, env.hooks.copying_text)])
    }
}

/// A text node.
pub open spec fn spec_text(contents: Seq<char>, data: ChildData, env: Env) -> RenderedSpanView {
    let size = spec_size(data.heading_weight);
    if data.flags.has(ChildDataFlags::spec_monospace()) {
        spec_codeblock(
            contents,
            size,
            !data.flags.has(ChildDataFlags::spec_keep_whitespace()),
            env,
        )
    } else {
        let text = if data.flags.has(ChildDataFlags::spec_keep_whitespace()) {
            contents
        } else {
            spec_clean_whitespace(contents)
        };
        RenderedSpanView::Spans(seq![text_span(text, size, data.flags, env.font)])
    }
}

/// The context after reading the `align` attribute of a block: `right` and `center` (or
/// `centre`) set the alignment, `left` clears it, anything else leaves it.
pub open spec fn spec_alignment_read(data: ChildData, attrs: Seq<AttributeView>) -> ChildData {
    match spec_get_attr(attrs, "align"@) {
        Some(a) => if a == "right"@ {
            ChildData { alignment: Some(ChildAlignment::Right), ..data }
        } else if a == "center"@ || a == "centre"@ {
            ChildData { alignment: Some(ChildAlignment::Center), ..data }
        } else if a == "left"@ {
            ChildData { alignment: None, ..data }
        } else {
            data
        },
        None => data,
    }
}

/// An image. Without a source, with an empty one, or without a host that draws images,
/// nothing is shown.
pub open spec fn spec_draw_image(attrs: Seq<AttributeView>, env: Env) -> RenderedSpanView {
    match spec_get_attr(attrs, "src"@) {
        Some(url) => if url.len() > 0 && env.hooks.drawing_image {
            RenderedSpanView::Elem(
                VisualView::Image {
                    url,
                    width: spec_get_attr(attrs, "width"@),
                    height: spec_get_attr(attrs, "height"@),
                },
                Emp::NonEmpty,
            )
        } else {
            RenderedSpanView::Empty
        },
        None => RenderedSpanView::Empty,
    }
}

/// The visible stand-in for an element that the renderer does not know: its name, in
/// the base font made bold.
pub open spec fn placeholder(name: Seq<char>, base: Font) -> RenderedSpanView {
    RenderedSpanView::Spans(
        seq![
            SpanView {
                font: Some(Font { weight: Weight::Bold, ..base }),
                ..SpanView::plain("<"@ + name + " (TODO)>"@)
            },
        ],
    )
}

/// An `input`: a checkbox that is checked where the attribute `checked` is present, or a
/// note that names the unsupported type (`text` where none is given).
pub open spec fn spec_input(attrs: Seq<AttributeView>) -> RenderedSpanView {
    let kind = match spec_get_attr(attrs, "type"@) {
        Some(k) => k,
        None => "text"@,
    };
    if kind == "checkbox"@ {
        RenderedSpanView::Elem(
            VisualView::Checkbox { checked: spec_has_attr(attrs, "checked"@) },
            Emp::NonEmpty,
        )
    } else {
        RenderedSpanView::Elem(
            VisualView::Text {
                label: "[HTML todo: <input type=\""@ + kind + "\">]"@,
                size: None,
            },
            Emp::NonEmpty,
        )
    }
}

/// The bullet of a list item: its number and a dot in an ordered list, a dash otherwise.
pub open spec fn bullet(number: Option<usize>) -> Seq<char> {
    match number {
        Some(n) => spec_decimal(n as nat).push('.'),
        None => seq!['-'],
    }
}

/// A list item: the bullet and the body side by side, 5 pixels apart.
pub open spec fn list_item(number: Option<usize>, body: VisualView) -> RenderedSpanView {
    RenderedSpanView::Elem(
        VisualView::Row {
            items: seq![VisualView::Text { label: bullet(number), size: None }, body],
            spacing: 5,
            wrap: false,
        },
        Emp::NonEmpty,
    )
}

/// A quotation: the body indented by 10 pixels, with a vertical rule along its left edge.
pub open spec fn quote(body: VisualView) -> RenderedSpanView {
    RenderedSpanView::Elem(
        VisualView::Stack {
            layers: seq![
                VisualView::Row {
                    items: seq![
                        VisualView::Space { width: Length::Fixed(10), height: Length::Shrink },
                        body,
                    ],
                    spacing: 0,
                    wrap: false,
                },
                VisualView::VerticalRule { thickness: 2 },
            ],
        },
        Emp::NonEmpty,
    )
}

/// A unit placed across the full width.
pub open spec fn aligned(unit: RenderedSpanView, align: ChildAlignment) -> RenderedSpanView {
    RenderedSpanView::Elem(
        VisualView::Column {
            items: seq![unit.render()],
            spacing: 0,
            padding: Padding::spec_all(0),
            align: Some(align),
        },
        Emp::NonEmpty,
    )
}

/// A line break: a composite that shows nothing but still ends the row.
pub open spec fn line_break() -> RenderedSpanView {
    RenderedSpanView::Elem(empty_column(), Emp::NonEmpty)
}

/// A horizontal divider.
pub open spec fn divider() -> RenderedSpanView {
    RenderedSpanView::Elem(VisualView::HorizontalRule { thickness: 4 }, Emp::NonEmpty)
}

/// The runs of a link without a target: underlined, and otherwise as they were.
pub open spec fn underlined(spans: Seq<SpanView>) -> Seq<SpanView> {
    spans.map_values(|s: SpanView| SpanView { underline: true, ..s })
}

/// The runs of a link to `url`.
pub open spec fn linked(spans: Seq<SpanView>, url: Seq<char>, clickable: bool) -> Seq<SpanView> {
    spans.map_values(|s: SpanView| spec_link_text(s, url, clickable))
}

/// The runs of a header that toggles a collapsible section.
pub open spec fn toggling(spans: Seq<SpanView>, toggle: EventView) -> Seq<SpanView> {
    spans.map_values(|s: SpanView| SpanView { link: Some(toggle), underline: true, ..s })
}

/// A link, given what its children rendered to. With a target: the URL itself where the
/// element has no children, each run as a link where the children are runs, and a button
/// around anything else. Without a target: the children underlined, and no event at all.
pub open spec fn link_unit(
    href: Option<Seq<char>>,
    childless: bool,
    children: RenderedSpanView,
    clickable: bool,
) -> RenderedSpanView {
    match href {
        Some(url) => if childless {
            RenderedSpanView::Spans(seq![spec_link_text(SpanView::plain(url), url, clickable)])
        } else {
            match children {
                RenderedSpanView::Spans(n) => RenderedSpanView::Spans(linked(n, url, clickable)),
                other => RenderedSpanView::Elem(
                    spec_link(other.render(), url, clickable),
                    Emp::NonEmpty,
                ),
            }
        },
        None => match children {
            RenderedSpanView::Spans(n) => RenderedSpanView::Spans(underlined(n)),
            other => RenderedSpanView::Elem(
                spec_link(other.render(), Seq::empty(), false),
                Emp::NonEmpty,
            ),
        },
    }
}

/// The header of an interactive collapsible section: activating it asks for the
/// opposite state.
pub open spec fn toggle_header(summary: RenderedSpanView, toggle: EventView) -> VisualView {
    match summary {
        RenderedSpanView::Spans(n) => VisualView::RichText { spans: toggling(n, toggle) },
        other => VisualView::MouseArea {
            content: Box::new(spec_underline(other.render())),
            pressed: toggle,
        },
    }
}

/// An interactive collapsible section: the header, and below it the body where the
/// section is expanded; beside them a glyph that tells the state, with a rule along the
/// body.
pub open spec fn details_interactive(
    id: usize,
    expanded: bool,
    summary: RenderedSpanView,
    body: RenderedSpanView,
) -> RenderedSpanView {
    let header = toggle_header(summary, EventView::DetailsToggle(id, !expanded));
    RenderedSpanView::Elem(
        VisualView::Stack {
            layers: seq![
                VisualView::Column {
                    items: if expanded {
                        seq![header, body.render()]
                    } else {
                        seq![header]
                    },
                    spacing: 0,
                    padding: Padding { top: 0, right: 0, bottom: 5, left: 20 },
                    align: None,
                },
                VisualView::Column {
                    items: if expanded {
                        seq![
                            VisualView::Text { label: "V"@, size: Some(12u16) },
                            VisualView::VerticalRule { thickness: 1 },
                        ]
                    } else {
                        seq![VisualView::Text { label: ">"@, size: Some(14u16) }]
                    },
                    spacing: 5,
                    padding: Padding {
                        top: if expanded {
                            5
                        } else {
                            0
                        },
                        right: 0,
                        bottom: 0,
                        left: 5,
                    },
                    align: None,
                },
            ],
        },
        Emp::NonEmpty,
    )
}

/// A collapsible section that cannot be toggled: everything in it, between two rules.
pub open spec fn details_static(body: RenderedSpanView) -> RenderedSpanView {
    RenderedSpanView::Elem(
        VisualView::Column {
            items: seq![
                VisualView::HorizontalRule { thickness: 1 },
                body.render(),
                VisualView::HorizontalRule { thickness: 1 },
            ],
            spacing: 10,
            padding: Padding::spec_all(10),
            align: None,
        },
        Emp::NonEmpty,
    )
}

/// The state of the collapsible section `id`, if the document state knows it.
pub open spec fn dropdown_lookup(env: Env, id: usize) -> Option<bool> {
    if env.dropdown_state.contains_key(id) {
        Some(env.dropdown_state[id])
    } else {
        None
    }
}

/// The index of the first `summary` element among the first `upto` of `children`.
pub open spec fn first_summary(children: Seq<DomNodeView>, upto: nat) -> Option<int>
    decreases upto,
{
    if upto == 0 || upto > children.len() {
        None
    } else {
        match first_summary(children, (upto - 1) as nat) {
            Some(k) => Some(k),
            None => if children[upto - 1].is_tag("summary"@) {
                Some(upto - 1)
            } else {
                None
            },
        }
    }
}

/// What has been gathered from the children of a node so far.
pub struct Gathered {
    /// The finished rows that show something, top to bottom.
    pub column: Seq<RenderedSpanView>,
    /// The row that inline children are still merging into.
    pub row: RenderedSpanView,
    /// How many children were rendered.
    pub count: nat,
    /// Whether the `summary` to leave out has been met.
    pub skipped_summary: bool,
    pub next_id: usize,
}

/// The rows with the open row closed: it joins them if it shows something.
pub open spec fn flushed(column: Seq<RenderedSpanView>, row: RenderedSpanView) -> Seq<
    RenderedSpanView,
> {
    if row.is_empty() {
        column
    } else {
        column.push(row)
    }
}

/// The context of the child that is rendered after `count` others: in an ordered list it
/// carries the child's number, counted from 1.
pub open spec fn child_data(data: ChildData, count: nat) -> ChildData {
    if data.li_ordered_number is Some {
        ChildData { li_ordered_number: Some((count + 1) as usize), ..data }
    } else {
        data
    }
}

/// The rows of a finished group: nothing for none, the row itself for one, and for more
/// a column of them with the given spacing.
pub open spec fn group(rows: Seq<RenderedSpanView>, spacing: u16) -> RenderedSpanView {
    if rows.len() == 0 {
        RenderedSpanView::Empty
    } else if rows.len() == 1 {
        rows[0]
    } else {
        RenderedSpanView::Elem(
            VisualView::Column {
                items: rows.map_values(|u: RenderedSpanView| u.render()),
                spacing,
                padding: Padding::spec_all(0),
                align: None,
            },
            Emp::NonEmpty,
        )
    }
}

/// The children of `node` up to, not including, the one at `upto`, gathered in document
/// order. Text that is only white space is passed over, and so is the first `summary`
/// where `skip_summary` asks for it. A block-level child closes the open row and is a
/// row of its own; any other child merges into the open row.
pub open spec fn spec_gather(
    node: DomNodeView,
    data: ChildData,
    skip_summary: bool,
    env: Env,
    id: usize,
    upto: nat,
) -> Gathered
    decreases node, upto,
{
    if upto == 0 || upto > node.children.len() {
        Gathered {
            column: Seq::empty(),
            row: RenderedSpanView::Empty,
            count: 0,
            skipped_summary: false,
            next_id: id,
        }
    } else {
        let before = spec_gather(node, data, skip_summary, env, id, (upto - 1) as nat);
        let child = node.children[upto - 1];
        if child.is_useless() {
            before
        } else if skip_summary && !before.skipped_summary && child.is_tag("summary"@) {
            Gathered { skipped_summary: true, ..before }
        } else {
            let r = spec_traverse_node(child, child_data(data, before.count), env, before.next_id);
            if child.is_block() {
                Gathered {
                    column: flushed(flushed(before.column, before.row), r.unit),
                    row: if before.row.is_empty() {
                        before.row
                    } else {
                        RenderedSpanView::Empty
                    },
                    count: before.count + 1,
                    next_id: r.next_id,
                    ..before
                }
            } else {
                Gathered {
                    row: before.row.add(r.unit),
                    count: before.count + 1,
                    next_id: r.next_id,
                    ..before
                }
            }
        }
    }
}

/// The children of a node as one unit.
pub open spec fn spec_render_children(
    node: DomNodeView,
    data: ChildData,
    skip_summary: bool,
    env: Env,
    id: usize,
) -> Rendered
    decreases node, node.children.len() + 1,
{
    let g = spec_gather(node, data, skip_summary, env, id, node.children.len());
    Rendered { unit: group(flushed(g.column, g.row), env.spacing), next_id: g.next_id }
}

/// The header of a collapsible section: its first `summary` child, or nothing.
pub open spec fn spec_get_summary_elements(
    node: DomNodeView,
    data: ChildData,
    env: Env,
    id: usize,
) -> Rendered
    decreases node, node.children.len() + 1,
{
    match first_summary(node.children, node.children.len()) {
        Some(k) => if 0 <= k < node.children.len() {
            spec_traverse_node(node.children[k], data, env, id)
        } else {
            Rendered { unit: RenderedSpanView::Empty, next_id: id }
        },
        None => Rendered { unit: RenderedSpanView::Empty, next_id: id },
    }
}

/// A collapsible section. It takes the next id. Where the host forwards updates and the
/// document state knows the id, the section can be toggled and its body shows only while
/// it is expanded; otherwise it shows everything and reports nothing.
pub open spec fn spec_draw_details(node: DomNodeView, data: ChildData, env: Env, id: usize)
    -> Rendered
    decreases node, node.children.len() + 2,
{
    let state = dropdown_lookup(env, id);
    if env.hooks.updating_state && state is Some {
        let summary = spec_get_summary_elements(node, data, env, next_id(id));
        let body = spec_render_children(node, data, true, env, summary.next_id);
        Rendered {
            unit: details_interactive(id, state->0, summary.unit, body.unit),
            next_id: body.next_id,
        }
    } else {
        let body = spec_render_children(node, data, false, env, next_id(id));
        Rendered { unit: details_static(body.unit), next_id: body.next_id }
    }
}

/// A link.
pub open spec fn spec_draw_link(
    node: DomNodeView,
    attrs: Seq<AttributeView>,
    data: ChildData,
    env: Env,
    id: usize,
) -> Rendered
    decreases node, node.children.len() + 2,
{
    let children = spec_render_children(node, data, false, env, id);
    Rendered {
        unit: link_unit(
            spec_get_attr(attrs, "href"@),
            node.children.len() == 0,
            children.unit,
            env.hooks.clicking_link,
        ),
        next_id: children.next_id,
    }
}

/// An element with the given name and attributes.
pub open spec fn spec_render_html_inner(
    name: Seq<char>,
    attrs: Seq<AttributeView>,
    node: DomNodeView,
    data: ChildData,
    env: Env,
    id: usize,
) -> Rendered
    decreases node, node.children.len() + 3,
{
    let block = node.is_block();
    let data = if block {
        spec_alignment_read(data, attrs)
    } else {
        data
    };
    let inner = match Tag::spec_from_name(name) {
        Tag::Transparent => spec_render_children(node, data, false, env, id),
        Tag::Center => spec_render_children(
            node,
            ChildData { alignment: Some(ChildAlignment::Center), ..data },
            false,
            env,
            id,
        ),
        Tag::Pre => spec_render_children(
            node,
            ChildData { flags: data.flags.with(ChildDataFlags::spec_keep_whitespace()), ..data },
            false,
            env,
            id,
        ),
        Tag::Heading(weight) => spec_render_children(
            node,
            ChildData { heading_weight: weight, ..data },
            false,
            env,
            id,
        ),
        Tag::Blockquote => {
            let body = spec_render_children(node, data, false, env, id);
            Rendered { unit: quote(body.unit.render()), next_id: body.next_id }
        },
        Tag::Bold => spec_render_children(
            node,
            ChildData { flags: data.flags.with(ChildDataFlags::spec_bold()), ..data },
            false,
            env,
            id,
        ),
        Tag::Italic => spec_render_children(
            node,
            ChildData { flags: data.flags.with(ChildDataFlags::spec_italic()), ..data },
            false,
            env,
            id,
        ),
        Tag::Underline => spec_render_children(
            node,
            ChildData { flags: data.flags.with(ChildDataFlags::spec_underline()), ..data },
            false,
            env,
            id,
        ),
        Tag::Strikethrough => spec_render_children(
            node,
            ChildData { flags: data.flags.with(ChildDataFlags::spec_strikethrough()), ..data },
            false,
            env,
            id,
        ),
        Tag::Code => spec_render_children(
            node,
            ChildData { flags: data.flags.with(ChildDataFlags::spec_monospace()), ..data },
            false,
            env,
            id,
        ),
        Tag::Details => spec_draw_details(node, data, env, id),
        Tag::Anchor => spec_draw_link(node, attrs, data, env, id),
        Tag::Image => Rendered { unit: spec_draw_image(attrs, env), next_id: id },
        Tag::LineBreak => Rendered { unit: line_break(), next_id: id },
        Tag::Rule => Rendered { unit: divider(), next_id: id },
        Tag::Hidden => Rendered { unit: RenderedSpanView::Empty, next_id: id },
        Tag::Input => Rendered { unit: spec_input(attrs), next_id: id },
        Tag::UnorderedList => spec_render_children(
            node,
            ChildData { li_ordered_number: None, ..data },
            false,
            env,
            id,
        ),
        Tag::OrderedList => spec_render_children(
            node,
            ChildData { li_ordered_number: Some(1usize), ..data },
            false,
            env,
            id,
        ),
        Tag::ListItem => {
            let body = spec_render_children(node, data, false, env, id);
            Rendered {
                unit: list_item(data.li_ordered_number, body.unit.render()),
                next_id: body.next_id,
            }
        },
        Tag::Unknown => Rendered { unit: placeholder(name, env.font), next_id: id },
    };
    match data.alignment {
        Some(align) => if block {
            Rendered { unit: aligned(inner.unit, align), next_id: inner.next_id }
        } else {
            inner
        },
        None => inner,
    }
}

/// A node of the document, rendered under the inherited formatting `data`, where `id` is
/// the id that the next collapsible section gets.
pub open spec fn spec_traverse_node(node: DomNodeView, data: ChildData, env: Env, id: usize)
    -> Rendered
    decreases node, node.children.len() + 4,
{
    match node.data {
        DomDataView::Document => spec_render_children(node, data, false, env, id),
        DomDataView::Text { contents } => Rendered {
            unit: spec_text(contents, data, env),
            next_id: id,
        },
        DomDataView::Element { name, attrs } => spec_render_html_inner(
            name,
            attrs,
            node,
            data,
            env,
            id,
        ),
        DomDataView::Other => Rendered { unit: RenderedSpanView::Empty, next_id: id },
    }
}

/// Among the headings 1 to 6 a greater weight has a strictly smaller text. Body text,
/// weight 0, has size 16, and weight 7 is smaller than body text.
pub proof fn lemma_heading_sizes(lighter: u16, heavier: u16)
    requires
        1 <= lighter < heavier <= 6,
    ensures
        spec_size(lighter) > spec_size(heavier),
        spec_size(0) == 16,
        spec_size(7) < spec_size(0),
{
}

/// A link without a target still shows its children, underlined, and reports nothing
/// of its own: runs keep their text, their style and whatever they reported before, and
/// anything else sits in a button that no press activates. This holds whether or not the
/// host listens to links.
pub proof fn lemma_link_without_target(
    childless: bool,
    children: RenderedSpanView,
    clickable: bool,
)
    ensures
        match children {
            RenderedSpanView::Spans(n) => {
                &&& link_unit(None, childless, children, clickable) == RenderedSpanView::Spans(
                    underlined(n),
                )
                &&& underlined(n).len() == n.len()
                &&& forall|i: int|
                    0 <= i < n.len() ==> #[trigger] underlined(n)[i] == (SpanView {
                        underline: true,
                        ..n[i]
                    })
            },
            other => link_unit(None, childless, children, clickable) == RenderedSpanView::Elem(
                VisualView::Button {
                    content: Box::new(spec_underline(other.render())),
                    on_press: None,
                    padding: Padding::spec_all(0),
                },
                Emp::NonEmpty,
            ),
        },
{
}

/// A list item without an alignment in force is a row of its bullet and its children:
/// the bullet first, which is the item's number and a dot in an ordered list and a dash
/// otherwise, then what the children rendered to.
pub proof fn lemma_list_item(
    attrs: Seq<AttributeView>,
    node: DomNodeView,
    data: ChildData,
    env: Env,
    id: usize,
)
    requires
        spec_alignment_read(data, attrs).alignment is None,
    ensures
        ({
            let own = spec_alignment_read(data, attrs);
            let body = spec_render_children(node, own, false, env, id);
            let label = match data.li_ordered_number {
                Some(n) => spec_decimal(n as nat).push('.'),
                None => seq!['-'],
            };
            &&& node.is_tag("li"@) ==> spec_render_html_inner("li"@, attrs, node, data, env, id)
                == (Rendered {
                unit: RenderedSpanView::Elem(
                    VisualView::Row {
                        items: seq![
                            VisualView::Text { label, size: None },
                            body.unit.render(),
                        ],
                        spacing: 5,
                        wrap: false,
                    },
                    Emp::NonEmpty,
                ),
                next_id: body.next_id,
            })
        }),
{
    reveal_strlit("li");
    reveal_strlit("summary");
    reveal_strlit("kbd");
    reveal_strlit("span");
    reveal_strlit("html");
    reveal_strlit("body");
    reveal_strlit("p");
    reveal_strlit("div");
    reveal_strlit("center");
    reveal_strlit("pre");
    reveal_strlit("h1");
    reveal_strlit("h2");
    reveal_strlit("h3");
    reveal_strlit("h4");
    reveal_strlit("h5");
    reveal_strlit("h6");
    reveal_strlit("sub");
    reveal_strlit("blockquote");
    reveal_strlit("b");
    reveal_strlit("strong");
    reveal_strlit("em");
    reveal_strlit("i");
    reveal_strlit("u");
    reveal_strlit("del");
    reveal_strlit("s");
    reveal_strlit("strike");
    reveal_strlit("code");
    reveal_strlit("details");
    reveal_strlit("a");
    reveal_strlit("img");
    reveal_strlit("br");
    reveal_strlit("hr");
    reveal_strlit("head");
    reveal_strlit("title");
    reveal_strlit("meta");
    reveal_strlit("input");
    reveal_strlit("ul");
    reveal_strlit("ol");
    assert("li"@[0] == 'l');
    assert("h1"@[0] == 'h' && "h2"@[0] == 'h' && "h3"@[0] == 'h' && "h4"@[0] == 'h');
    assert("h5"@[0] == 'h' && "h6"@[0] == 'h' && "hr"@[0] == 'h');
    assert("em"@[0] == 'e' && "br"@[0] == 'b' && "ul"@[0] == 'u' && "ol"@[0] == 'o');
    assert(Tag::spec_from_name("li"@) == Tag::ListItem);
}

/// An image without a source, or with an empty one, shows nothing; neither does any
/// image while the host draws none.
pub proof fn lemma_image_shows_nothing(attrs: Seq<AttributeView>, env: Env)
    requires
        spec_get_attr(attrs, "src"@) is None || spec_get_attr(attrs, "src"@) == Some(
            Seq::<char>::empty(),
        ) || !env.hooks.drawing_image,
    ensures
        spec_draw_image(attrs, env) == RenderedSpanView::Empty,
{
}

/// Whether the unit is an interactive collapsible section whose first layer holds, below
/// the header, exactly the given body.
pub open spec fn shows_body(unit: RenderedSpanView, body: VisualView) -> bool {
    unit matches RenderedSpanView::Elem(VisualView::Stack { layers }, _) && layers.len() == 2
        && (layers[0] matches VisualView::Column { items, .. } && items.len() == 2 && items[1]
        == body)
}

/// Whether the unit is an interactive collapsible section that shows its header alone.
pub open spec fn hides_body(unit: RenderedSpanView) -> bool {
    unit matches RenderedSpanView::Elem(VisualView::Stack { layers }, _) && layers.len() == 2
        && (layers[0] matches VisualView::Column { items, .. } && items.len() == 1)
}

/// The event that the header of an interactive collapsible section reports, where the
/// header is made of runs: the event of its first run.
pub open spec fn header_event(unit: RenderedSpanView) -> Option<EventView> {
    match unit {
        RenderedSpanView::Elem(VisualView::Stack { layers }, _) => if layers.len() == 2 {
            match layers[0] {
                VisualView::Column { items, .. } => if items.len() > 0 {
                    match items[0] {
                        VisualView::RichText { spans } => if spans.len() > 0 {
                            spans[0].link
                        } else {
                            None
                        },
                        VisualView::MouseArea { pressed, .. } => Some(pressed),
                        _ => None,
                    }
                } else {
                    None
                },
                _ => None,
            }
        } else {
            None
        },
        _ => None,
    }
}

} // verus!
