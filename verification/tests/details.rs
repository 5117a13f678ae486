use std::collections::HashMap;
use frostmark::visual::{Event, Font, Length, Padding, Span, Visual};
use frostmark::{MarkState, MarkWidget, UpdateMsg};

fn states(expanded: &[bool]) -> HashMap<usize, bool> {
    expanded.iter().copied().enumerate().collect()
}

fn run(text: &str) -> Span {
    Span {
        text: text.to_string(),
        size: Some(16),
        font: Some(Font::sans_serif()),
        underline: false,
        strikethrough: false,
        link: None,
    }
}

fn text(s: &str) -> Visual {
    Visual::RichText { spans: vec![run(s)] }
}

fn header(s: &str, id: usize, to: bool) -> Visual {
    let mut span = run(s);
    span.underline = true;
    span.link = Some(Event::DetailsToggle(id, to));
    Visual::RichText { spans: vec![span] }
}

fn section(header: Visual, body: Option<Visual>) -> Visual {
    let expanded = body.is_some();
    let mut left = vec![header];
    let mut right = vec![Visual::Text {
        label: if expanded { "V" } else { ">" }.to_string(),
        size: Some(if expanded { 12 } else { 14 }),
    }];
    if let Some(body) = body {
        left.push(body);
        right.push(Visual::VerticalRule { thickness: 1 });
    }
    Visual::Stack {
        layers: vec![
            Visual::Column {
                items: left,
                spacing: 0,
                padding: Padding { top: 0, right: 0, bottom: 5, left: 20 },
                align: None,
            },
            Visual::Column {
                items: right,
                spacing: 5,
                padding: Padding { top: if expanded { 5 } else { 0 }, right: 0, bottom: 0, left: 5 },
                align: None,
            },
        ],
    }
}

const ONE: &str = "<details><summary>More</summary><p>Body</p></details>";

#[test]
fn a_fresh_section_is_collapsed() {
    let state: MarkState<()> = MarkState::with_html(ONE);
    assert_eq!(state.dropdown_state(), &states(&[false]));
    let element = MarkWidget::new(&state).on_updating_state().render();
    assert_eq!(element, section(header("More", 0, true), None));
}

#[test]
fn toggling_shows_the_body_and_toggling_again_hides_it() {
    let mut state: MarkState<()> = MarkState::with_html(ONE);
    let collapsed = MarkWidget::new(&state).on_updating_state().render();

    state.submit(UpdateMsg::DetailsToggle(0, true));
    assert_eq!(MarkWidget::new(&state).on_updating_state().render(), collapsed);
    assert!(state.update().is_empty());
    assert_eq!(state.dropdown_state(), &states(&[true]));
    let expanded = MarkWidget::new(&state).on_updating_state().render();
    assert_eq!(expanded, section(header("More", 0, false), Some(text("Body"))));

    state.submit(UpdateMsg::DetailsToggle(0, false));
    state.update();
    assert_eq!(state.dropdown_state(), &states(&[false]));
    assert_eq!(MarkWidget::new(&state).on_updating_state().render(), collapsed);
}

#[test]
fn without_the_update_hook_a_section_shows_everything() {
    let state: MarkState<()> = MarkState::with_html(ONE);
    let element = MarkWidget::new(&state).render();
    let body = Visual::Column {
        items: vec![text("More"), text("Body")],
        spacing: 5,
        padding: Padding::all(0),
        align: None,
    };
    let expected = Visual::Column {
        items: vec![
            Visual::HorizontalRule { thickness: 1 },
            body,
            Visual::HorizontalRule { thickness: 1 },
        ],
        spacing: 10,
        padding: Padding::all(10),
        align: None,
    };
    assert_eq!(element, expected);
}

#[test]
fn sections_get_their_ids_in_document_order() {
    let mut state: MarkState<()> = MarkState::with_html(
        "<details><summary>A</summary>a<details><summary>B</summary>b</details></details><details><summary>C</summary>c</details>",
    );
    assert_eq!(state.dropdown_state(), &states(&[false, false, false]));
    state.submit(UpdateMsg::DetailsToggle(2, true));
    state.submit(UpdateMsg::DetailsToggle(0, true));
    state.update();
    assert_eq!(state.dropdown_state(), &states(&[true, false, true]));
    let element = MarkWidget::new(&state).on_updating_state().render();
    let inner = section(header("B", 1, true), None);
    let first_body = Visual::Row { items: vec![text("a"), inner], spacing: 5, wrap: true };
    let expected = Visual::Row {
        items: vec![
            section(header("A", 0, false), Some(first_body)),
            section(header("C", 2, false), Some(text("c"))),
        ],
        spacing: 5,
        wrap: true,
    };
    assert_eq!(element, expected);
}

#[test]
fn ids_do_not_depend_on_what_is_expanded() {
    let mut state: MarkState<()> = MarkState::with_html(
        "<details><summary>A</summary><details><summary>B</summary>b</details></details><details><summary>C</summary>c</details>",
    );
    let collapsed = MarkWidget::new(&state).on_updating_state().render();
    match &collapsed {
        Visual::Row { items, .. } => assert_eq!(items[1], section(header("C", 2, true), None)),
        other => panic!("not a row: {:?}", other),
    }
    state.submit(UpdateMsg::DetailsToggle(0, true));
    state.update();
    match MarkWidget::new(&state).on_updating_state().render() {
        Visual::Row { items, .. } => assert_eq!(items[1], section(header("C", 2, true), None)),
        other => panic!("not a row: {:?}", other),
    }
}

#[test]
fn a_summary_that_is_not_text_is_pressed_as_a_whole() {
    let state: MarkState<()> = MarkState::with_html("<details><summary><hr></summary>x</details>");
    let element = MarkWidget::new(&state).on_updating_state().render();
    let plain = |items| Visual::Column { items, spacing: 0, padding: Padding::all(0), align: None };
    let underlined = Visual::Stack {
        layers: vec![
            plain(vec![Visual::HorizontalRule { thickness: 4 }]),
            plain(vec![
                Visual::Space { width: Length::Shrink, height: Length::Fill },
                Visual::HorizontalRule { thickness: 1 },
                Visual::Space { width: Length::Shrink, height: Length::Fixed(1) },
            ]),
        ],
    };
    let head = Visual::MouseArea {
        content: Box::new(underlined),
        pressed: Event::DetailsToggle(0, true),
    };
    assert_eq!(element, section(head, None));
}

#[test]
fn a_toggle_for_an_unknown_section_changes_nothing() {
    let mut state: MarkState<()> = MarkState::with_html(ONE);
    state.submit(UpdateMsg::DetailsToggle(1, true));
    state.submit(UpdateMsg::DetailsToggle(usize::MAX, true));
    assert_eq!(state.pending(), 2);
    assert!(state.update().is_empty());
    assert_eq!(state.pending(), 0);
    assert_eq!(state.dropdown_state(), &states(&[false]));
}
