use frostmark::dom::{Attribute, DomNode};
use frostmark::span::{Emp, RenderedSpan};
use frostmark::visual::{Padding, Visual};
use frostmark::{MarkState, MarkWidget};

fn empty() -> Visual {
    Visual::Column { items: vec![], spacing: 0, padding: Padding::all(0), align: None }
}

fn attr(name: &str, value: &str) -> Attribute {
    Attribute { name: name.to_string(), value: value.to_string() }
}

fn render(html: &str, drawing: bool) -> Visual {
    let state: MarkState<()> = MarkState::with_html(html);
    let widget = MarkWidget::new(&state);
    if drawing {
        widget.on_drawing_image().render()
    } else {
        widget.render()
    }
}

#[test]
fn an_image_without_source_shows_nothing() {
    assert_eq!(render("<img>", true), empty());
    assert_eq!(render("<img alt=\"x\" width=\"3\">", true), empty());
}

#[test]
fn an_image_with_an_empty_source_shows_nothing() {
    assert_eq!(render("<img src=\"\">", true), empty());
}

#[test]
fn an_image_shows_nothing_while_the_host_draws_none() {
    assert_eq!(render("<img src=\"http://x/y.png\">", false), empty());
}

#[test]
fn an_image_is_handed_to_the_host_with_its_size() {
    let expected = Visual::Image {
        url: "http://x/y.png".to_string(),
        width: Some("40".to_string()),
        height: None,
    };
    assert_eq!(render("<img width=\"40\" src=\"http://x/y.png\" src=\"other\">", true), expected);
    let sized = Visual::Image {
        url: "a".to_string(),
        width: Some("wide".to_string()),
        height: Some("1.5".to_string()),
    };
    assert_eq!(render("<img src=a height=1.5 width=wide>", true), sized);
}

#[test]
fn image_links_are_collected_once_each() {
    let state: MarkState<()> = MarkState::with_html(
        "<p><img src=\"a.png\"><img src=\"\"><img><b><img src=\"b.png\"></b></p><img src=\"a.png\"><div><img src=\"c.png\"></div>",
    );
    assert_eq!(state.find_image_links(), vec!["a.png", "b.png", "c.png"]);
    assert_eq!(state.find_image_links(), vec!["a.png", "b.png", "c.png"]);
}

#[test]
fn image_links_below_an_image_are_not_visited() {
    let tree = DomNode::document(vec![
        DomNode::element(
            "img",
            vec![attr("src", "outer")],
            vec![DomNode::element("img", vec![attr("src", "inner")], vec![])],
        ),
        DomNode::element("img", vec![attr("alt", "x"), attr("src", "last"), attr("src", "no")], vec![]),
    ]);
    let state: MarkState<()> = MarkState::from_document(tree);
    assert_eq!(state.find_image_links(), vec!["outer", "last"]);
}

#[test]
fn a_document_without_images_has_no_links() {
    let state: MarkState<()> = MarkState::with_html("<p>text</p>");
    assert!(state.find_image_links().is_empty());
}

#[test]
fn drawing_an_image_directly() {
    let state: MarkState<()> = MarkState::with_html("");
    let none = MarkWidget::new(&state);
    let some = MarkWidget::new(&state).on_drawing_image();
    assert_eq!(some.draw_image(&vec![]), RenderedSpan::Empty);
    assert_eq!(some.draw_image(&vec![attr("src", "")]), RenderedSpan::Empty);
    assert_eq!(none.draw_image(&vec![attr("src", "http://x/y.png")]), RenderedSpan::Empty);
    let expected = Visual::Image { url: "http://x/y.png".to_string(), width: None, height: None };
    assert_eq!(
        some.draw_image(&vec![attr("src", "http://x/y.png")]),
        RenderedSpan::Elem(expected, Emp::NonEmpty)
    );
}
