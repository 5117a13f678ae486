use frostmark::context::ChildData;
use frostmark::dom::DomNode;
use frostmark::visual::{Font, Padding, Span, Visual};
use frostmark::{MarkState, MarkWidget};

fn run(text: &str) -> Visual {
    Visual::RichText {
        spans: vec![Span {
            text: text.to_string(),
            size: Some(16),
            font: Some(Font::sans_serif()),
            underline: false,
            strikethrough: false,
            link: None,
        }],
    }
}

fn item(bullet: &str, body: Visual) -> Visual {
    Visual::Row {
        items: vec![Visual::Text { label: bullet.to_string(), size: None }, body],
        spacing: 5,
        wrap: false,
    }
}

fn column(items: Vec<Visual>) -> Visual {
    Visual::Column { items, spacing: 5, padding: Padding::all(0), align: None }
}

fn render(html: &str) -> Visual {
    let state: MarkState<()> = MarkState::with_html(html);
    MarkWidget::new(&state).render()
}

#[test]
fn ordered_items_are_numbered_from_one() {
    let element = render("<ol><li>a</li><li>b</li><li>c</li></ol>");
    let expected =
        column(vec![item("1.", run("a")), item("2.", run("b")), item("3.", run("c"))]);
    assert_eq!(element, expected);
}

#[test]
fn white_space_between_items_does_not_count() {
    let element = render("<ol>\n  <li>a</li>\n  <li>b</li>\n</ol>");
    assert_eq!(element, column(vec![item("1.", run("a")), item("2.", run("b"))]));
}

#[test]
fn nested_lists_restart_at_one() {
    let element = render("<ol><li>a</li><li>b<ol><li>c</li><li>d</li></ol></li><li>e</li></ol>");
    let inner = column(vec![item("1.", run("c")), item("2.", run("d"))]);
    let expected = column(vec![
        item("1.", run("a")),
        item("2.", column(vec![run("b"), inner])),
        item("3.", run("e")),
    ]);
    assert_eq!(element, expected);
}

#[test]
fn unordered_items_get_a_dash() {
    let element = render("<ul><li>a</li><li>b</li></ul>");
    assert_eq!(element, column(vec![item("-", run("a")), item("-", run("b"))]));
}

#[test]
fn an_unordered_list_inside_an_ordered_one_is_not_numbered() {
    let element = render("<ol><li><ul><li>x</li></ul></li></ol>");
    assert_eq!(element, item("1.", item("-", run("x"))));
}

#[test]
fn numbers_have_all_their_digits() {
    let mut html = String::from("<ol>");
    let mut i = 0;
    while i < 120 {
        html.push_str("<li>x</li>");
        i += 1;
    }
    html.push_str("</ol>");
    let element = render(&html);
    match element {
        Visual::Column { items, .. } => {
            assert_eq!(items.len(), 120);
            assert_eq!(items[8], item("9.", run("x")));
            assert_eq!(items[9], item("10.", run("x")));
            assert_eq!(items[99], item("100.", run("x")));
            assert_eq!(items[119], item("120.", run("x")));
        }
        other => panic!("not a column: {:?}", other),
    }
}

#[test]
fn an_empty_item_still_shows_its_bullet() {
    let empty = Visual::Column { items: vec![], spacing: 0, padding: Padding::all(0), align: None };
    assert_eq!(render("<ul><li></li></ul>"), item("-", empty));
}

#[test]
fn a_list_item_rendered_directly() {
    let state: MarkState<()> = MarkState::with_html("");
    let mut widget = MarkWidget::new(&state);
    let node = DomNode::element("li", vec![], vec![DomNode::text("x")]);
    let mut data = ChildData::default();
    data.li_ordered_number = Some(12);
    let numbered = widget.render_html_inner("li", &vec![], &node, data);
    assert_eq!(numbered.render(), item("12.", run("x")));
    let plain = widget.render_html_inner("li", &vec![], &node, ChildData::default());
    assert_eq!(plain.render(), item("-", run("x")));
}
