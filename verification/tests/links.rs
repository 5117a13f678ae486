use frostmark::dom::{Attribute, DomNode};
use frostmark::span::{Emp, RenderedSpan};
use frostmark::visual::{Event, Font, Length, Padding, Span, Visual};
use frostmark::renderer::finish_link;
use frostmark::widgets::{link, link_text, underline};
use frostmark::{MarkState, MarkWidget};

fn run(text: &str) -> Span {
    Span {
        text: text.to_string(),
        size: Some(16),
        font: Some(Font::sans_serif()),
        underline: false,
        strikethrough: false,
        link: None,
    }
}

fn plain_column(items: Vec<Visual>) -> Visual {
    Visual::Column { items, spacing: 0, padding: Padding::all(0), align: None }
}

fn underlined(e: Visual) -> Visual {
    Visual::Stack {
        layers: vec![
            plain_column(vec![e]),
            plain_column(vec![
                Visual::Space { width: Length::Shrink, height: Length::Fill },
                Visual::HorizontalRule { thickness: 1 },
                Visual::Space { width: Length::Shrink, height: Length::Fixed(1) },
            ]),
        ],
    }
}

fn clicked(url: &str) -> Option<Event> {
    Some(Event::LinkClicked(url.to_string()))
}

#[test]
fn underline_stacks_a_rule_below() {
    assert_eq!(underline(Visual::Checkbox { checked: true }), underlined(Visual::Checkbox { checked: true }));
}

#[test]
fn a_link_is_an_underlined_button() {
    let expected = Visual::Button {
        content: Box::new(underlined(Visual::Checkbox { checked: false })),
        on_press: clicked("http://x/"),
        padding: Padding::all(0),
    };
    assert_eq!(link(Visual::Checkbox { checked: false }, "http://x/", true), expected);
    let inert = Visual::Button {
        content: Box::new(underlined(Visual::Checkbox { checked: false })),
        on_press: None,
        padding: Padding::all(0),
    };
    assert_eq!(link(Visual::Checkbox { checked: false }, "http://x/", false), inert);
}

#[test]
fn link_text_replaces_the_event() {
    let mut before = run("a");
    before.link = Some(Event::TextCopied("a".to_string()));
    let mut linked = run("a");
    linked.underline = true;
    linked.link = clicked("u");
    assert_eq!(link_text(before.clone(), "u".to_string(), true), linked);
    linked.link = None;
    assert_eq!(link_text(before, "u".to_string(), false), linked);
}

#[test]
fn a_link_without_target_underlines_its_children_and_reports_nothing() {
    let state: MarkState<()> = MarkState::with_html("<a>go <b>there</b></a>");
    let element = MarkWidget::new(&state).on_clicking_link().render();
    match element {
        Visual::RichText { spans } => {
            assert_eq!(spans.len(), 2);
            assert_eq!(spans[0].text, "go ");
            assert_eq!(spans[1].text, "there");
            assert!(spans.iter().all(|s| s.underline && s.link.is_none()));
        }
        other => panic!("not text: {:?}", other),
    }
}

#[test]
fn a_link_without_target_around_a_composite_is_an_inert_button() {
    let node = DomNode::element("a", vec![], vec![DomNode::element("hr", vec![], vec![])]);
    let state: MarkState<()> = MarkState::from_document(node);
    let element = MarkWidget::new(&state).on_clicking_link().render();
    let expected = Visual::Button {
        content: Box::new(underlined(Visual::HorizontalRule { thickness: 4 })),
        on_press: None,
        padding: Padding::all(0),
    };
    assert_eq!(element, expected);
}

#[test]
fn each_run_of_a_link_reports_the_click() {
    let state: MarkState<()> = MarkState::with_html("<a href=\"http://x/\">go <i>there</i></a>");
    let element = MarkWidget::new(&state).on_clicking_link().render();
    match element {
        Visual::RichText { spans } => {
            assert_eq!(spans.len(), 2);
            assert!(spans.iter().all(|s| s.underline && s.link == clicked("http://x/")));
        }
        other => panic!("not text: {:?}", other),
    }
    let inert = MarkWidget::new(&state).render();
    match inert {
        Visual::RichText { spans } => {
            assert!(spans.iter().all(|s| s.underline && s.link.is_none()));
        }
        other => panic!("not text: {:?}", other),
    }
}

#[test]
fn a_link_without_children_shows_its_url() {
    let state: MarkState<()> = MarkState::with_html("<a href=\"http://x/\"></a>");
    let element = MarkWidget::new(&state).on_clicking_link().render();
    let expected = Span {
        text: "http://x/".to_string(),
        size: None,
        font: None,
        underline: true,
        strikethrough: false,
        link: clicked("http://x/"),
    };
    assert_eq!(element, Visual::RichText { spans: vec![expected] });
}

#[test]
fn a_link_around_a_composite_is_a_button() {
    let node = DomNode::element(
        "a",
        vec![Attribute { name: "href".to_string(), value: "u".to_string() }],
        vec![DomNode::element("hr", vec![], vec![])],
    );
    let state: MarkState<()> = MarkState::from_document(node);
    let element = MarkWidget::new(&state).on_clicking_link().render();
    let expected = Visual::Button {
        content: Box::new(underlined(Visual::HorizontalRule { thickness: 4 })),
        on_press: clicked("u"),
        padding: Padding::all(0),
    };
    assert_eq!(element, expected);
}

#[test]
fn finishing_a_link_covers_every_case() {
    let spans = || RenderedSpan::Spans(vec![run("a")]);
    let mut under = run("a");
    under.underline = true;
    assert_eq!(finish_link(None, false, spans(), true), RenderedSpan::Spans(vec![under.clone()]));
    assert_eq!(finish_link(None, true, spans(), true), RenderedSpan::Spans(vec![under.clone()]));
    under.link = clicked("u");
    assert_eq!(finish_link(Some("u"), false, spans(), true), RenderedSpan::Spans(vec![under]));
    let empty = finish_link(Some("u"), false, RenderedSpan::Empty, true);
    let expected = Visual::Button {
        content: Box::new(underlined(plain_column(vec![]))),
        on_press: clicked("u"),
        padding: Padding::all(0),
    };
    assert_eq!(empty, RenderedSpan::Elem(expected, Emp::NonEmpty));
}
