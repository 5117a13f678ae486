use frostmark::context::{ChildAlignment, ChildData, ChildDataFlags};
use frostmark::dom::Attribute;
use frostmark::renderer::{alignment_read, font_size};

#[test]
fn the_initial_context_is_plain() {
    let data = ChildData::default();
    assert_eq!(data.heading_weight, 0);
    assert_eq!(data.flags, ChildDataFlags::empty());
    assert_eq!(data.alignment, None);
    assert_eq!(data.li_ordered_number, None);
}

#[test]
fn deriving_a_context_leaves_the_parent() {
    let parent = ChildData::default();
    let child = parent.heading(3).insert(ChildDataFlags::bold()).ordered();
    assert_eq!(child.heading_weight, 3);
    assert!(child.flags.contains(ChildDataFlags::bold()));
    assert_eq!(child.li_ordered_number, Some(1));
    assert_eq!(parent, ChildData::default());
}

#[test]
fn flags_accumulate() {
    let data = ChildData::default().insert(ChildDataFlags::bold()).insert(ChildDataFlags::italic());
    assert!(data.flags.contains(ChildDataFlags::bold()));
    assert!(data.flags.contains(ChildDataFlags::italic()));
    assert!(!data.flags.contains(ChildDataFlags::underline()));
    assert!(!data.flags.contains(ChildDataFlags::strikethrough()));
    assert!(!data.flags.contains(ChildDataFlags::keep_whitespace()));
    assert!(!data.flags.contains(ChildDataFlags::monospace()));
    assert_eq!(data.flags.bits, 3);
    assert_eq!(data.insert(ChildDataFlags::bold()), data);
}

#[test]
fn each_flag_has_its_own_bit() {
    assert_eq!(ChildDataFlags::bold().bits, 1);
    assert_eq!(ChildDataFlags::italic().bits, 2);
    assert_eq!(ChildDataFlags::underline().bits, 4);
    assert_eq!(ChildDataFlags::strikethrough().bits, 8);
    assert_eq!(ChildDataFlags::keep_whitespace().bits, 16);
    assert_eq!(ChildDataFlags::monospace().bits, 32);
    assert!(ChildDataFlags::bold().contains(ChildDataFlags::empty()));
}

#[test]
fn heading_sizes_follow_the_formula() {
    assert_eq!(font_size(0), 16);
    assert_eq!(font_size(1), 32);
    assert_eq!(font_size(2), 28);
    assert_eq!(font_size(3), 24);
    assert_eq!(font_size(4), 20);
    assert_eq!(font_size(5), 16);
    assert_eq!(font_size(6), 12);
    assert_eq!(font_size(7), 10);
    assert_eq!(font_size(8), 10);
    assert_eq!(font_size(u16::MAX), 10);
}

#[test]
fn heading_sizes_decrease_with_the_weight() {
    let mut w = 1u16;
    while w < 6 {
        assert!(font_size(w) > font_size(w + 1));
        w += 1;
    }
    assert!(font_size(7) < font_size(0));
}

fn align(value: &str) -> Vec<Attribute> {
    vec![
        Attribute { name: "class".to_string(), value: "x".to_string() },
        Attribute { name: "align".to_string(), value: value.to_string() },
        Attribute { name: "align".to_string(), value: "right".to_string() },
    ]
}

#[test]
fn the_align_attribute_sets_and_clears_the_alignment() {
    let mut data = ChildData::default();
    alignment_read(&mut data, &align("center"));
    assert_eq!(data.alignment, Some(ChildAlignment::Center));
    alignment_read(&mut data, &align("justify"));
    assert_eq!(data.alignment, Some(ChildAlignment::Center));
    alignment_read(&mut data, &align("right"));
    assert_eq!(data.alignment, Some(ChildAlignment::Right));
    alignment_read(&mut data, &align("centre"));
    assert_eq!(data.alignment, Some(ChildAlignment::Center));
    alignment_read(&mut data, &vec![]);
    assert_eq!(data.alignment, Some(ChildAlignment::Center));
    alignment_read(&mut data, &align("left"));
    assert_eq!(data.alignment, None);
}
