use frostmark::dom::{Attribute, DomData, DomNode};
use frostmark::html::parse_html;
use frostmark::visual::{Font, Padding, Span, Style, Visual, Weight};
use frostmark::{MarkState, MarkWidget};

fn run(text: &str, size: u16, bold: bool) -> Span {
    let mut font = Font::sans_serif();
    if bold {
        font.weight = Weight::Bold;
    }
    Span {
        text: text.to_string(),
        size: Some(size),
        font: Some(font),
        underline: false,
        strikethrough: false,
        link: None,
    }
}

fn column(items: Vec<Visual>) -> Visual {
    Visual::Column { items, spacing: 5, padding: Padding::all(0), align: None }
}

#[test]
fn parser_builds_the_expected_tree() {
    let doc = parse_html("<h1>Title</h1><p id=\"x\">Hello <b>World</b></p>");
    let expected = DomNode::document(vec![DomNode::element(
        "html",
        vec![],
        vec![
            DomNode::element("head", vec![], vec![]),
            DomNode::element(
                "body",
                vec![],
                vec![
                    DomNode::element("h1", vec![], vec![DomNode::text("Title")]),
                    DomNode::element(
                        "p",
                        vec![Attribute { name: "id".to_string(), value: "x".to_string() }],
                        vec![
                            DomNode::text("Hello "),
                            DomNode::element("b", vec![], vec![DomNode::text("World")]),
                        ],
                    ),
                ],
            ),
        ],
    )]);
    assert_eq!(doc, expected);
}

#[test]
fn parser_keeps_doctype_and_comments_as_other_nodes() {
    let doc = parse_html("<!DOCTYPE html><!-- note --><p>x</p>");
    assert_eq!(doc.data, DomData::Document);
    assert_eq!(doc.children[0].data, DomData::Other);
    assert_eq!(doc.children[1].data, DomData::Other);
    assert!(matches!(&doc.children[2].data, DomData::Element { name, .. } if name == "html"));
}

#[test]
fn parser_accepts_malformed_markup() {
    let doc = parse_html("<p>one<p>two</b><div align=center>x");
    let body = &doc.children[0].children[1];
    assert_eq!(body.children.len(), 3);
    assert!(matches!(&body.children[2].data, DomData::Element { name, attrs }
        if name == "div" && attrs[0].name == "align" && attrs[0].value == "center"));
    assert_eq!(parse_html("").children.len(), 1);
}

#[test]
fn heading_and_paragraph_make_two_rows() {
    let state: MarkState<()> = MarkState::with_html("<h1>Title</h1><p>Hello <b>World</b></p>");
    let element = MarkWidget::new(&state).render();
    let expected = column(vec![
        Visual::RichText { spans: vec![run("Title", 32, false)] },
        Visual::RichText { spans: vec![run("Hello ", 16, false), run("World", 16, true)] },
    ]);
    assert_eq!(element, expected);
}

#[test]
fn rendering_twice_gives_equal_trees() {
    let state: MarkState<()> = MarkState::with_html(
        "<details><summary>More</summary><p>Body</p></details><p>x <code>y</code></p><ol><li>a</li></ol>",
    );
    let first = MarkWidget::new(&state).on_updating_state().on_copying_text().render();
    let second = MarkWidget::new(&state).on_updating_state().on_copying_text().render();
    assert_eq!(first, second);
}

#[test]
fn markdown_is_rendered_to_html_first() {
    let state: MarkState<()> =
        MarkState::with_html_and_markdown("# Title\n\nHello **World** ~~old~~ <u>raw</u>").unwrap();
    let element = MarkWidget::new(&state).render();
    let mut old = run("old", 16, false);
    old.strikethrough = true;
    let mut raw = run("raw", 16, false);
    raw.underline = true;
    let expected = column(vec![
        Visual::RichText { spans: vec![run("Title", 32, false)] },
        Visual::RichText { spans: vec![run("Hello ", 16, false), run("World", 16, true), old, raw] },
    ]);
    assert_eq!(element, expected);
}

#[test]
fn markdown_extensions_are_switched_on() {
    let state: MarkState<()> =
        MarkState::with_html_and_markdown("- [x] done\n\nH~2~O and x^2^ and __under__").unwrap();
    let doc = state.dom();
    fn count(node: &DomNode, tag: &str) -> usize {
        let own = match &node.data {
            DomData::Element { name, .. } if name == tag => 1,
            _ => 0,
        };
        own + node.children.iter().map(|c| count(c, tag)).sum::<usize>()
    }
    assert_eq!(count(doc, "input"), 1);
    assert_eq!(count(doc, "sub"), 1);
    assert_eq!(count(doc, "sup"), 1);
    assert_eq!(count(doc, "u"), 1);
}

#[test]
fn italic_text_uses_the_italic_style() {
    let state: MarkState<()> = MarkState::with_html("<i>a<b>b</b></i>");
    let element = MarkWidget::new(&state).font(Font::with_name("Inter")).render();
    let mut a = run("a", 16, false);
    let mut b = run("b", 16, true);
    a.font = Some(Font { style: Style::Italic, ..Font::with_name("Inter") });
    b.font = Some(Font { style: Style::Italic, weight: Weight::Bold, ..Font::with_name("Inter") });
    assert_eq!(element, Visual::RichText { spans: vec![a, b] });
}
