//! Properties of a traversal that relate the renderer to the document state.
use crate::context::ChildData;
use crate::dom::DomNodeView;
use crate::dom::DomDataView;
use crate::layout::{
    child_data, details_interactive, first_summary, header_event, hides_body, next_id,
    shows_body, spec_draw_details, spec_gather, spec_get_summary_elements,
    spec_render_children, spec_render_html_inner, spec_traverse_node, Env,
};
use crate::tags::Tag;
use crate::renderer::MarkWidget;
use crate::span::{RenderedSpan, RenderedSpanView};
use crate::state::{
    all_collapsed, details_total, details_total_upto, toggled, MarkStateView, UpdateMsgView,
};
use crate::visual::EventView;
use vstd::prelude::*;

verus! {

/// Rendering the same node twice under the same formatting, from widgets that read the
/// same document state and start at the same id, gives equal units and leaves both
/// counters at the same id.
pub proof fn lemma_traversal_repeats<A>(
    node: DomNodeView,
    data: ChildData,
    first: MarkWidget<'_, A>,
    first_after: MarkWidget<'_, A>,
    first_element: RenderedSpan,
    second: MarkWidget<'_, A>,
    second_after: MarkWidget<'_, A>,
    second_element: RenderedSpan,
)
    requires
        first.env() == second.env(),
        first.dropdown_id() == second.dropdown_id(),
        first.rendered(
            first_after,
            first_element,
            spec_traverse_node(node, data, first.env(), first.dropdown_id()),
        ),
        second.rendered(
            second_after,
            second_element,
            spec_traverse_node(node, data, second.env(), second.dropdown_id()),
        ),
    ensures
        first_element@ == second_element@,
        first_after.dropdown_id() == second_after.dropdown_id(),
        first_after.env() == second_after.env(),
{
}

/// A collapsed section under a host that forwards updates shows its header alone, and the
/// header asks for the section to be expanded. Once that toggle is applied the section
/// shows its body below the header, and the header asks for the section to be collapsed.
/// Applying that second toggle brings back the state, and with it the rendering, from
/// before the first.
pub proof fn lemma_details_toggle_round_trip<A>(
    node: DomNodeView,
    data: ChildData,
    env: Env,
    id: usize,
)
    requires
        env.hooks.updating_state,
        env.dropdown_state.contains_key(id),
        !env.dropdown_state[id],
    ensures
        ({
            let collapsed = spec_draw_details(node, data, env, id);
            let open = seq![UpdateMsgView::<A>::DetailsToggle(id, true)];
            let opened = Env { dropdown_state: toggled(env.dropdown_state, open), ..env };
            let expanded = spec_draw_details(node, data, opened, id);
            let close = seq![UpdateMsgView::<A>::DetailsToggle(id, false)];
            let closed = Env { dropdown_state: toggled(opened.dropdown_state, close), ..env };
            let summary = spec_get_summary_elements(node, data, opened, next_id(id));
            let body = spec_render_children(node, data, true, opened, summary.next_id);
            &&& hides_body(collapsed.unit)
            &&& opened.dropdown_state[id]
            &&& shows_body(expanded.unit, body.unit.render())
            &&& closed == env
            &&& spec_draw_details(node, data, closed, id) == collapsed
        }),
{
    crate::state::lemma_toggle_round_trip::<A>(env.dropdown_state, id);
}

/// The header of an interactive section whose summary is made of runs asks for the
/// opposite of the section's state.
pub proof fn lemma_details_header_event(
    id: usize,
    expanded: bool,
    summary: RenderedSpanView,
    body: RenderedSpanView,
)
    requires
        !(summary matches RenderedSpanView::Spans(n) && n.len() == 0),
    ensures
        header_event(details_interactive(id, expanded, summary, body)) == Some(
            EventView::DetailsToggle(id, !expanded),
        ),
{
}

/// How many of the first `upto` children of `node` are rendered: all but the texts that
/// are only white space and, where it is to be left out, the first `summary`.
pub open spec fn rendered_children(node: DomNodeView, skip_summary: bool, upto: nat) -> nat
    decreases upto,
{
    if upto == 0 || upto > node.children.len() {
        0
    } else {
        let before = rendered_children(node, skip_summary, (upto - 1) as nat);
        let child = node.children[upto - 1];
        if child.is_useless() {
            before
        } else if skip_summary && child.is_tag("summary"@) && first_summary(
            node.children,
            (upto - 1) as nat,
        ) is None {
            before
        } else {
            before + 1
        }
    }
}

/// What a lookup of the first `summary` finds is one, lies among the children that were
/// looked at, and has no `summary` before it.
pub proof fn lemma_first_summary(children: Seq<DomNodeView>, upto: nat)
    requires
        upto <= children.len(),
    ensures
        match first_summary(children, upto) {
            Some(k) => 0 <= k < upto && children[k].is_tag("summary"@) && forall|j: int|
                0 <= j < k ==> !(#[trigger] children[j]).is_tag("summary"@),
            None => forall|j: int| 0 <= j < upto ==> !(#[trigger] children[j]).is_tag("summary"@),
        },
    decreases upto,
{
    if upto > 0 {
        lemma_first_summary(children, (upto - 1) as nat);
    }
}

/// The children of a node are numbered as they are rendered: the child that is rendered
/// after `k` others is the one numbered `k + 1` in an ordered list, whatever is passed
/// over in between. The first `summary` counts as met exactly where it was to be left
/// out and has been seen.
pub proof fn lemma_children_are_numbered(
    node: DomNodeView,
    data: ChildData,
    skip_summary: bool,
    env: Env,
    id: usize,
    upto: nat,
)
    requires
        upto <= node.children.len(),
    ensures
        spec_gather(node, data, skip_summary, env, id, upto).count == rendered_children(
            node,
            skip_summary,
            upto,
        ),
        spec_gather(node, data, skip_summary, env, id, upto).skipped_summary == (skip_summary
            && first_summary(node.children, upto) is Some),
        data.li_ordered_number is Some ==> child_data(
            data,
            rendered_children(node, skip_summary, upto),
        ).li_ordered_number == Some((rendered_children(node, skip_summary, upto) + 1) as usize),
        data.li_ordered_number is None ==> child_data(
            data,
            rendered_children(node, skip_summary, upto),
        ).li_ordered_number is None,
    decreases upto,
{
    if upto > 0 {
        lemma_children_are_numbered(node, data, skip_summary, env, id, (upto - 1) as nat);
        lemma_first_summary(node.children, (upto - 1) as nat);
    }
}

/// How many collapsible sections a traversal of `node` meets: the `details` elements of
/// the tree, but for those below an element whose children are not visited.
pub open spec fn sections(node: DomNodeView) -> nat
    decreases node, node.children.len() + 1,
{
    match node.data {
        DomDataView::Document => sections_upto(node, node.children.len()),
        DomDataView::Element { name, .. } => match Tag::spec_from_name(name) {
            Tag::Details => 1 + sections_upto(node, node.children.len()),
            Tag::Image | Tag::LineBreak | Tag::Rule | Tag::Hidden | Tag::Input | Tag::Unknown => 0,
            _ => sections_upto(node, node.children.len()),
        },
        _ => 0,
    }
}

/// How many collapsible sections the traversals of the first `upto` children meet.
pub open spec fn sections_upto(node: DomNodeView, upto: nat) -> nat
    decreases node, upto,
{
    if upto == 0 || upto > node.children.len() {
        0
    } else {
        sections_upto(node, (upto - 1) as nat) + sections(node.children[upto - 1])
    }
}

/// The sections of the first `upto` children, without those of the `summary` that is
/// left out.
pub open spec fn sections_gathered(node: DomNodeView, skip_summary: bool, upto: nat) -> int {
    sections_upto(node, upto) - match first_summary(node.children, upto) {
        Some(k) => if skip_summary && 0 <= k < node.children.len() {
            sections(node.children[k])
        } else {
            0
        },
        None => 0,
    }
}

/// The sections of the header of a collapsible section.
pub open spec fn sections_summary(node: DomNodeView) -> nat {
    match first_summary(node.children, node.children.len()) {
        Some(k) => if 0 <= k < node.children.len() {
            sections(node.children[k])
        } else {
            0
        },
        None => 0,
    }
}

proof fn lemma_sections_monotonic(node: DomNodeView, k: int, upto: nat)
    requires
        0 <= k < upto <= node.children.len(),
    ensures
        sections(node.children[k]) <= sections_upto(node, upto),
    decreases upto,
{
    if k < upto - 1 {
        lemma_sections_monotonic(node, k, (upto - 1) as nat);
    }
}

proof fn lemma_gather_ids(
    node: DomNodeView,
    data: ChildData,
    skip_summary: bool,
    env: Env,
    id: usize,
    upto: nat,
)
    requires
        upto <= node.children.len(),
        id + sections_gathered(node, skip_summary, upto) <= usize::MAX,
    ensures
        spec_gather(node, data, skip_summary, env, id, upto).next_id == id + sections_gathered(
            node,
            skip_summary,
            upto,
        ),
        0 <= sections_gathered(node, skip_summary, upto),
    decreases node, upto,
{
    if upto > 0 {
        let k = (upto - 1) as nat;
        let child = node.children[upto - 1];
        lemma_first_summary(node.children, k);
        lemma_first_summary(node.children, upto);
        lemma_children_are_numbered(node, data, skip_summary, env, id, k);
        match first_summary(node.children, k) {
            Some(s) => {
                lemma_sections_monotonic(node, s, k);
            },
            None => {},
        }
        let before = spec_gather(node, data, skip_summary, env, id, k);
        if child.is_useless() {
            assert(sections(child) == 0);
            lemma_gather_ids(node, data, skip_summary, env, id, k);
        } else if skip_summary && !before.skipped_summary && child.is_tag("summary"@) {
            lemma_gather_ids(node, data, skip_summary, env, id, k);
        } else {
            assert(sections_gathered(node, skip_summary, upto) == sections_gathered(
                node,
                skip_summary,
                k,
            ) + sections(child));
            lemma_gather_ids(node, data, skip_summary, env, id, k);
            lemma_traverse_ids(child, child_data(data, before.count), env, before.next_id);
        }
    }
}

proof fn lemma_children_ids(
    node: DomNodeView,
    data: ChildData,
    skip_summary: bool,
    env: Env,
    id: usize,
)
    requires
        id + sections_gathered(node, skip_summary, node.children.len()) <= usize::MAX,
    ensures
        spec_render_children(node, data, skip_summary, env, id).next_id == id
            + sections_gathered(node, skip_summary, node.children.len()),
        !skip_summary ==> sections_gathered(node, skip_summary, node.children.len())
            == sections_upto(node, node.children.len()),
    decreases node, node.children.len() + 1,
{
    lemma_gather_ids(node, data, skip_summary, env, id, node.children.len());
}

proof fn lemma_summary_ids(node: DomNodeView, data: ChildData, env: Env, id: usize)
    requires
        id + sections_summary(node) <= usize::MAX,
    ensures
        spec_get_summary_elements(node, data, env, id).next_id == id + sections_summary(node),
        sections_summary(node) + sections_gathered(node, true, node.children.len())
            == sections_upto(node, node.children.len()),
    decreases node, node.children.len() + 1,
{
    lemma_first_summary(node.children, node.children.len());
    match first_summary(node.children, node.children.len()) {
        Some(k) => {
            lemma_traverse_ids(node.children[k], data, env, id);
        },
        None => {},
    }
}

proof fn lemma_details_ids(node: DomNodeView, data: ChildData, env: Env, id: usize)
    requires
        id + 1 + sections_upto(node, node.children.len()) <= usize::MAX,
    ensures
        spec_draw_details(node, data, env, id).next_id == id + 1 + sections_upto(
            node,
            node.children.len(),
        ),
    decreases node, node.children.len() + 2,
{
    lemma_first_summary(node.children, node.children.len());
    match first_summary(node.children, node.children.len()) {
        Some(k) => {
            lemma_sections_monotonic(node, k, node.children.len());
        },
        None => {},
    }
    lemma_summary_ids(node, data, env, next_id(id));
    let summary = spec_get_summary_elements(node, data, env, next_id(id));
    lemma_children_ids(node, data, true, env, summary.next_id);
    lemma_children_ids(node, data, false, env, next_id(id));
}

proof fn lemma_element_ids(
    name: Seq<char>,
    attrs: Seq<crate::dom::AttributeView>,
    node: DomNodeView,
    data: ChildData,
    env: Env,
    id: usize,
)
    requires
        node.data == (DomDataView::Element { name, attrs }),
        id + sections(node) <= usize::MAX,
    ensures
        spec_render_html_inner(name, attrs, node, data, env, id).next_id == id + sections(node),
    decreases node, node.children.len() + 3,
{
    let block = node.is_block();
    let own = if block {
        crate::layout::spec_alignment_read(data, attrs)
    } else {
        data
    };
    match Tag::spec_from_name(name) {
        Tag::Transparent => lemma_children_ids(node, own, false, env, id),
        Tag::Center => lemma_children_ids(
            node,
            ChildData { alignment: Some(crate::context::ChildAlignment::Center), ..own },
            false,
            env,
            id,
        ),
        Tag::Pre => lemma_children_ids(
            node,
            ChildData {
                flags: own.flags.with(crate::context::ChildDataFlags::spec_keep_whitespace()),
                ..own
            },
            false,
            env,
            id,
        ),
        Tag::Heading(weight) => lemma_children_ids(
            node,
            ChildData { heading_weight: weight, ..own },
            false,
            env,
            id,
        ),
        Tag::Blockquote => lemma_children_ids(node, own, false, env, id),
        Tag::Bold => lemma_children_ids(
            node,
            ChildData { flags: own.flags.with(crate::context::ChildDataFlags::spec_bold()), ..own },
            false,
            env,
            id,
        ),
        Tag::Italic => lemma_children_ids(
            node,
            ChildData {
                flags: own.flags.with(crate::context::ChildDataFlags::spec_italic()),
                ..own
            },
            false,
            env,
            id,
        ),
        Tag::Underline => lemma_children_ids(
            node,
            ChildData {
                flags: own.flags.with(crate::context::ChildDataFlags::spec_underline()),
                ..own
            },
            false,
            env,
            id,
        ),
        Tag::Strikethrough => lemma_children_ids(
            node,
            ChildData {
                flags: own.flags.with(crate::context::ChildDataFlags::spec_strikethrough()),
                ..own
            },
            false,
            env,
            id,
        ),
        Tag::Code => lemma_children_ids(
            node,
            ChildData {
                flags: own.flags.with(crate::context::ChildDataFlags::spec_monospace()),
                ..own
            },
            false,
            env,
            id,
        ),
        Tag::Details => lemma_details_ids(node, own, env, id),
        Tag::Anchor => lemma_children_ids(node, own, false, env, id),
        Tag::UnorderedList => lemma_children_ids(
            node,
            ChildData { li_ordered_number: None, ..own },
            false,
            env,
            id,
        ),
        Tag::OrderedList => lemma_children_ids(
            node,
            ChildData { li_ordered_number: Some(1usize), ..own },
            false,
            env,
            id,
        ),
        Tag::ListItem => lemma_children_ids(node, own, false, env, id),
        _ => {},
    }
}

/// The ids of collapsible sections follow from the tree alone. Each section that a
/// traversal meets takes one id, in the order of the traversal; so as long as the counter
/// does not run out, rendering a node moves it on by the number of sections that the node
/// holds, whatever the formatting, the hooks and the state of the document are. A section
/// therefore keeps its id from frame to frame while the tree stays the same.
pub proof fn lemma_traverse_ids(node: DomNodeView, data: ChildData, env: Env, id: usize)
    requires
        id + sections(node) <= usize::MAX,
    ensures
        spec_traverse_node(node, data, env, id).next_id == id + sections(node),
    decreases node, node.children.len() + 4,
{
    match node.data {
        DomDataView::Document => lemma_children_ids(node, data, false, env, id),
        DomDataView::Element { name, attrs } => lemma_element_ids(
            name,
            attrs,
            node,
            data,
            env,
            id,
        ),
        _ => {},
    }
}

proof fn lemma_sections_upto_bounded(node: DomNodeView, upto: nat)
    requires
        upto <= node.children.len(),
    ensures
        sections_upto(node, upto) <= details_total_upto(node, upto),
    decreases node, upto,
{
    if upto > 0 {
        lemma_sections_upto_bounded(node, (upto - 1) as nat);
        lemma_sections_bounded(node.children[upto - 1]);
    }
}

/// A traversal meets no more sections than the tree has `details` elements.
pub proof fn lemma_sections_bounded(node: DomNodeView)
    ensures
        sections(node) <= details_total(node),
    decreases node, node.children.len() + 1,
{
    lemma_sections_upto_bounded(node, node.children.len());
}

/// Under a well-formed state every section that a rendering of the whole document meets
/// has an id that the state knows, so each of them can be toggled: the ids that are given
/// out are those below the number of sections, and the state knows each of them.
pub proof fn lemma_sections_are_known<A>(
    state: MarkStateView<A>,
    data: ChildData,
    env: Env,
)
    requires
        state.wf(),
        env.dropdown_state == state.dropdown_state,
    ensures
        forall|id: usize| id < sections(state.dom) ==> env.dropdown_state.contains_key(id),
        sections(state.dom) <= usize::MAX ==> spec_traverse_node(state.dom, data, env, 0).next_id
            == sections(state.dom),
{
    lemma_sections_bounded(state.dom);
    if sections(state.dom) <= usize::MAX {
        lemma_traverse_ids(state.dom, data, env, 0);
    }
    assert forall|id: usize| id < sections(state.dom) implies env.dropdown_state.contains_key(
        id,
    ) by {
        assert(all_collapsed(details_total(state.dom)).dom().contains(id));
    }
}

} // verus!
