use frostmark::context::{ChildAlignment, ChildData, ChildDataFlags};
use frostmark::dom::{get_attr, is_block_element, is_node_useless, is_tag, Attribute, DomNode};
use frostmark::renderer::finish_group;
use frostmark::span::{Emp, RenderedSpan};
use frostmark::tags::Tag;
use frostmark::visual::{Font, Length, Padding, Span, Visual, Weight};
use frostmark::{MarkState, MarkWidget};

fn run(text: &str) -> Span {
    Span {
        text: text.to_string(),
        size: Some(16),
        font: Some(Font::sans_serif()),
        underline: false,
        strikethrough: false,
        link: None,
    }
}

fn text(s: &str) -> Visual {
    Visual::RichText { spans: vec![run(s)] }
}

fn column(items: Vec<Visual>) -> Visual {
    Visual::Column { items, spacing: 5, padding: Padding::all(0), align: None }
}

fn empty() -> Visual {
    Visual::Column { items: vec![], spacing: 0, padding: Padding::all(0), align: None }
}

fn render(html: &str) -> Visual {
    let state: MarkState<()> = MarkState::with_html(html);
    MarkWidget::new(&state).render()
}

#[test]
fn inline_siblings_merge_into_one_row() {
    let expected = Visual::RichText { spans: vec![run("a "), run("b"), run(" c")] };
    assert_eq!(render("a <span>b</span> c"), expected);
}

#[test]
fn a_block_ends_the_row_before_it() {
    assert_eq!(render("a<p>b</p>c<div>d</div>"), column(vec![text("a"), text("b"), text("c"), text("d")]));
}

#[test]
fn a_list_starts_a_new_row_after_inline_content() {
    let item = Visual::Row {
        items: vec![Visual::Text { label: "-".to_string(), size: None }, text("x")],
        spacing: 5,
        wrap: false,
    };
    assert_eq!(render("before<ul><li>x</li></ul>after"), column(vec![text("before"), item, text("after")]));
}

#[test]
fn empty_blocks_leave_no_row() {
    assert_eq!(render("<p></p><p>a</p><div> </div>"), text("a"));
    assert_eq!(render("<p></p><div></div>"), empty());
    assert_eq!(render(""), empty());
}

#[test]
fn the_spacing_between_rows_can_be_set() {
    let state: MarkState<()> = MarkState::with_html("<p>a</p><p>b</p>");
    let element = MarkWidget::new(&state).paragraph_spacing(12).render();
    let expected = Visual::Column {
        items: vec![text("a"), text("b")],
        spacing: 12,
        padding: Padding::all(0),
        align: None,
    };
    assert_eq!(element, expected);
}

#[test]
fn a_line_break_ends_the_row() {
    assert_eq!(render("a<br>b"), column(vec![text("a"), empty(), text("b")]));
}

#[test]
fn a_divider_is_a_row_of_its_own() {
    assert_eq!(render("a<hr>b"), column(vec![text("a"), Visual::HorizontalRule { thickness: 4 }, text("b")]));
}

#[test]
fn a_composite_next_to_text_makes_a_wrapping_row() {
    let expected = Visual::Row {
        items: vec![text("a"), Visual::Checkbox { checked: true }, text("b")],
        spacing: 5,
        wrap: true,
    };
    match render("a<input type=checkbox checked>b") {
        Visual::Row { items, spacing: 5, wrap: true } => {
            assert_eq!(items.len(), 2);
            assert_eq!(items[1], text("b"));
            assert_eq!(
                items[0],
                Visual::Row {
                    items: vec![text("a"), Visual::Checkbox { checked: true }],
                    spacing: 5,
                    wrap: true
                }
            );
        }
        other => panic!("unexpected {:?} instead of nesting like {:?}", other, expected),
    }
}

#[test]
fn an_input_is_a_checkbox_or_a_note() {
    assert_eq!(render("<input type=\"checkbox\">"), Visual::Checkbox { checked: false });
    assert_eq!(render("<input checked type=\"checkbox\">"), Visual::Checkbox { checked: true });
    assert_eq!(
        render("<input type=\"radio\">"),
        Visual::Text { label: "[HTML todo: <input type=\"radio\">]".to_string(), size: None }
    );
    assert_eq!(
        render("<input>"),
        Visual::Text { label: "[HTML todo: <input type=\"text\">]".to_string(), size: None }
    );
}

#[test]
fn an_unknown_tag_shows_a_placeholder() {
    let mut span = run("<marquee (TODO)>");
    span.size = None;
    span.font = Some(Font { weight: Weight::Bold, ..Font::sans_serif() });
    assert_eq!(render("<marquee>hidden</marquee>"), Visual::RichText { spans: vec![span] });
}

#[test]
fn head_title_and_meta_show_nothing() {
    assert_eq!(render("<head><title>t</title><meta charset=\"utf-8\"></head>"), empty());
    assert_eq!(render("<title>t</title>x"), text("x"));
}

#[test]
fn pre_keeps_white_space() {
    assert_eq!(render("<pre>a  b\n c</pre>"), text("a  b\n c"));
    assert_eq!(render("<p>a  b\n c</p>"), text("a b c"));
}

#[test]
fn style_tags_set_their_flags() {
    let mut under = run("u");
    under.underline = true;
    let mut struck = run("s");
    struck.strikethrough = true;
    let mut both = run("x");
    both.underline = true;
    both.strikethrough = true;
    both.font = Some(Font { weight: Weight::Bold, ..Font::sans_serif() });
    let expected = Visual::RichText { spans: vec![under, struck.clone(), both] };
    assert_eq!(render("<u>u</u><del>s</del><strike><u><strong>x</strong></u></strike>"), expected);
    assert_eq!(render("<s>s</s>"), Visual::RichText { spans: vec![struck] });
}

#[test]
fn a_quotation_is_indented_beside_a_rule() {
    let expected = Visual::Stack {
        layers: vec![
            Visual::Row {
                items: vec![
                    Visual::Space { width: Length::Fixed(10), height: Length::Shrink },
                    text("q"),
                ],
                spacing: 0,
                wrap: false,
            },
            Visual::VerticalRule { thickness: 2 },
        ],
    };
    assert_eq!(render("<blockquote>q</blockquote>"), expected);
}

fn aligned(inner: Visual, align: ChildAlignment) -> Visual {
    Visual::Column { items: vec![inner], spacing: 0, padding: Padding::all(0), align: Some(align) }
}

#[test]
fn blocks_are_aligned_by_attribute() {
    assert_eq!(render("<p align=\"right\">r</p>"), aligned(text("r"), ChildAlignment::Right));
    assert_eq!(render("<p align=\"centre\">c</p>"), aligned(text("c"), ChildAlignment::Center));
    assert_eq!(render("<p align=\"left\">l</p>"), text("l"));
    assert_eq!(render("<span align=\"right\">s</span>"), text("s"));
}

#[test]
fn alignment_is_inherited_by_the_blocks_inside() {
    let inner = aligned(text("x"), ChildAlignment::Center);
    assert_eq!(render("<center><p>x</p></center>"), inner);
    let nested = aligned(aligned(text("x"), ChildAlignment::Right), ChildAlignment::Right);
    assert_eq!(render("<div align=right><p>x</p></div>"), nested);
    let cleared = aligned(text("x"), ChildAlignment::Right);
    assert_eq!(render("<div align=right><p align=left>x</p></div>"), cleared);
    assert_eq!(render("<center>plain</center>"), text("plain"));
}

#[test]
fn block_level_tags() {
    let blocks = [
        "address", "article", "aside", "blockquote", "canvas", "dd", "div", "dl", "dt",
        "fieldset", "figcaption", "figure", "footer", "form", "h1", "h2", "h3", "h4", "h5",
        "h6", "header", "hr", "li", "main", "nav", "noscript", "ol", "p", "pre", "section",
        "table", "tfoot", "ul", "video", "br", "summary",
    ];
    for tag in blocks {
        assert!(is_block_element(&DomNode::element(tag, vec![], vec![])), "{}", tag);
    }
    for tag in ["span", "a", "b", "code", "img", "details", "center", "html", "body", "P", ""] {
        assert!(!is_block_element(&DomNode::element(tag, vec![], vec![])), "{}", tag);
    }
    assert!(!is_block_element(&DomNode::text("p")));
    assert!(!is_block_element(&DomNode::document(vec![])));
}

#[test]
fn tags_resolve_by_name() {
    for name in ["summary", "kbd", "span", "html", "body", "p", "div"] {
        assert_eq!(Tag::from_name(name), Tag::Transparent);
    }
    assert_eq!(Tag::from_name("center"), Tag::Center);
    assert_eq!(Tag::from_name("pre"), Tag::Pre);
    assert_eq!(Tag::from_name("h1"), Tag::Heading(1));
    assert_eq!(Tag::from_name("h2"), Tag::Heading(2));
    assert_eq!(Tag::from_name("h3"), Tag::Heading(3));
    assert_eq!(Tag::from_name("h4"), Tag::Heading(4));
    assert_eq!(Tag::from_name("h5"), Tag::Heading(5));
    assert_eq!(Tag::from_name("h6"), Tag::Heading(6));
    assert_eq!(Tag::from_name("sub"), Tag::Heading(7));
    assert_eq!(Tag::from_name("blockquote"), Tag::Blockquote);
    assert_eq!(Tag::from_name("b"), Tag::Bold);
    assert_eq!(Tag::from_name("strong"), Tag::Bold);
    assert_eq!(Tag::from_name("em"), Tag::Italic);
    assert_eq!(Tag::from_name("i"), Tag::Italic);
    assert_eq!(Tag::from_name("u"), Tag::Underline);
    assert_eq!(Tag::from_name("del"), Tag::Strikethrough);
    assert_eq!(Tag::from_name("s"), Tag::Strikethrough);
    assert_eq!(Tag::from_name("strike"), Tag::Strikethrough);
    assert_eq!(Tag::from_name("code"), Tag::Code);
    assert_eq!(Tag::from_name("details"), Tag::Details);
    assert_eq!(Tag::from_name("a"), Tag::Anchor);
    assert_eq!(Tag::from_name("img"), Tag::Image);
    assert_eq!(Tag::from_name("br"), Tag::LineBreak);
    assert_eq!(Tag::from_name("hr"), Tag::Rule);
    assert_eq!(Tag::from_name("head"), Tag::Hidden);
    assert_eq!(Tag::from_name("title"), Tag::Hidden);
    assert_eq!(Tag::from_name("meta"), Tag::Hidden);
    assert_eq!(Tag::from_name("input"), Tag::Input);
    assert_eq!(Tag::from_name("ul"), Tag::UnorderedList);
    assert_eq!(Tag::from_name("ol"), Tag::OrderedList);
    assert_eq!(Tag::from_name("li"), Tag::ListItem);
    assert_eq!(Tag::from_name("table"), Tag::Unknown);
    assert_eq!(Tag::from_name("H1"), Tag::Unknown);
    assert_eq!(Tag::from_name(""), Tag::Unknown);
}

#[test]
fn attributes_are_found_by_name() {
    let attrs = vec![
        Attribute { name: "a".to_string(), value: "1".to_string() },
        Attribute { name: "b".to_string(), value: "2".to_string() },
        Attribute { name: "a".to_string(), value: "3".to_string() },
    ];
    assert_eq!(get_attr(&attrs, "a"), Some("1"));
    assert_eq!(get_attr(&attrs, "b"), Some("2"));
    assert_eq!(get_attr(&attrs, "c"), None);
    assert_eq!(get_attr(&vec![], "a"), None);
}

#[test]
fn blank_text_nodes_are_useless() {
    assert!(is_node_useless(&DomNode::text(" \n\t")));
    assert!(is_node_useless(&DomNode::text("")));
    assert!(!is_node_useless(&DomNode::text(" x ")));
    assert!(!is_node_useless(&DomNode::element("p", vec![], vec![])));
    assert!(is_tag(&DomNode::element("p", vec![], vec![]), "p"));
    assert!(!is_tag(&DomNode::element("p", vec![], vec![]), "pre"));
    assert!(!is_tag(&DomNode::text("p"), "p"));
}

#[test]
fn a_text_node_is_rendered_under_its_context() {
    let state: MarkState<()> = MarkState::from_document(DomNode::document(vec![]));
    let mut widget = MarkWidget::new(&state);
    let data = ChildData::default().heading(2).insert(ChildDataFlags::underline());
    let unit = widget.traverse_node(&DomNode::text("  a   b "), data);
    let mut span = run(" a b ");
    span.size = Some(28);
    span.underline = true;
    assert_eq!(unit, RenderedSpan::Spans(vec![span]));
    let other = widget.traverse_node(&DomNode { data: frostmark::dom::DomData::Other, children: vec![] }, data);
    assert_eq!(other, RenderedSpan::Empty);
}

#[test]
fn children_can_be_rendered_without_their_summary() {
    let node = DomNode::element(
        "details",
        vec![],
        vec![
            DomNode::text("a"),
            DomNode::element("summary", vec![], vec![DomNode::text("first")]),
            DomNode::element("summary", vec![], vec![DomNode::text("second")]),
        ],
    );
    let state: MarkState<()> = MarkState::from_document(DomNode::document(vec![]));
    let mut widget = MarkWidget::new(&state);
    let all = widget.render_children(&node, ChildData::default(), false);
    assert_eq!(all.render(), column(vec![text("a"), text("first"), text("second")]));
    let rest = widget.render_children(&node, ChildData::default(), true);
    assert_eq!(rest.render(), column(vec![text("a"), text("second")]));
}

#[test]
fn finishing_a_group() {
    assert_eq!(finish_group(vec![], 5), RenderedSpan::Empty);
    let one = finish_group(vec![RenderedSpan::Spans(vec![run("a")])], 5);
    assert_eq!(one, RenderedSpan::Spans(vec![run("a")]));
    let two = finish_group(
        vec![RenderedSpan::Spans(vec![run("a")]), RenderedSpan::Elem(Visual::Checkbox { checked: true }, Emp::NonEmpty)],
        7,
    );
    let expected = Visual::Column {
        items: vec![text("a"), Visual::Checkbox { checked: true }],
        spacing: 7,
        padding: Padding::all(0),
        align: None,
    };
    assert_eq!(two, RenderedSpan::Elem(expected, Emp::NonEmpty));
}
