use druid_text::{
    Application, Clipboard, DrawAction, LayoutAction, LayoutWrapper, LineMetric, ShapedLayout,
    Size, TextBuffer, TextLayout,
};

fn two_lines() -> ShapedLayout {
    ShapedLayout {
        width: 120,
        lines: vec![
            LineMetric { cumulative_height: 18, baseline: 14 },
            LineMetric { cumulative_height: 36, baseline: 14 },
        ],
    }
}

#[test]
fn empty_buffer_has_zero_size_and_draws_nothing() {
    for width in [None, Some(0), Some(100), Some(u64::MAX)] {
        let (mut layout, action) = TextLayout::new(TextBuffer::new(), width);
        assert_eq!(action, LayoutAction::Keep);
        assert_eq!(layout.size(), Size { width: 0, height: 0 });
        assert_eq!(layout.draw(), DrawAction::Nothing);
        layout.install(Some(two_lines()));
        assert_eq!(layout.size(), Size { width: 0, height: 0 });
        assert_eq!(layout.draw(), DrawAction::Nothing);
        assert_eq!(layout.first_baseline(), 0);
        assert_eq!(layout.offset_for_point(3), 0);
    }
}

#[test]
fn new_layout_asks_for_a_build_of_the_whole_text() {
    let (layout, action) = TextLayout::new(TextBuffer::from("hello friends"), Some(200));
    assert_eq!(
        action,
        LayoutAction::Build { text: "hello friends".to_string(), width: Some(200) }
    );
    assert_eq!(layout.size(), Size { width: 0, height: 0 });
    assert_eq!(layout.draw(), DrawAction::Nothing);
}

#[test]
fn installed_layout_is_measured() {
    let (mut layout, _) = TextLayout::new(TextBuffer::from("hello\nfriends"), None);
    layout.install(Some(two_lines()));
    assert_eq!(layout.size(), Size { width: 120, height: 36 });
    assert_eq!(layout.first_baseline(), 14);
    assert_eq!(layout.draw(), DrawAction::Render { baseline: 14 });
}

#[test]
fn failed_build_leaves_nothing_shaped() {
    let (mut layout, _) = TextLayout::new(TextBuffer::from("hello"), None);
    layout.install(None);
    assert_eq!(layout.size(), Size { width: 0, height: 0 });
    assert_eq!(layout.first_baseline(), 0);
    assert_eq!(layout.draw(), DrawAction::Nothing);
    assert_eq!(layout.offset_for_point(2), 0);
    assert_eq!(layout.update_width(Some(10)), LayoutAction::Keep);
}

#[test]
fn layout_without_lines_has_its_width_and_no_height() {
    let (mut layout, _) = TextLayout::new(TextBuffer::from("hello"), None);
    layout.install(Some(ShapedLayout { width: 7, lines: vec![] }));
    assert_eq!(layout.size(), Size { width: 7, height: 0 });
    assert_eq!(layout.first_baseline(), 0);
    assert_eq!(layout.draw(), DrawAction::Render { baseline: 0 });
}

#[test]
fn same_buffer_keeps_the_layout() {
    let buffer = TextBuffer::from("hello friends");
    let (mut layout, _) = TextLayout::new(buffer.clone(), Some(200));
    layout.install(Some(two_lines()));
    let mut builds = 0;
    for _ in 0..3 {
        if layout.update_buffer(buffer.clone()) != LayoutAction::Keep {
            builds += 1;
        }
    }
    assert_eq!(builds, 0);
    assert_eq!(layout.size(), Size { width: 120, height: 36 });
    assert_eq!(layout.draw(), DrawAction::Render { baseline: 14 });
}

#[test]
fn changed_buffer_drops_the_layout_and_asks_for_a_build() {
    let buffer = TextBuffer::from("hello friends");
    let (mut layout, _) = TextLayout::new(buffer.clone(), Some(200));
    layout.install(Some(two_lines()));
    let mut edited = buffer.clone();
    edited.replace(0, 5, "goodbye");
    let action = layout.update_buffer(edited.clone());
    assert_eq!(
        action,
        LayoutAction::Build { text: "goodbye friends".to_string(), width: Some(200) }
    );
    assert_eq!(layout.size(), Size { width: 0, height: 0 });
    assert_eq!(layout.draw(), DrawAction::Nothing);
    layout.install(Some(ShapedLayout {
        width: 90,
        lines: vec![LineMetric { cumulative_height: 20, baseline: 15 }],
    }));
    assert_eq!(layout.size(), Size { width: 90, height: 20 });
    assert_eq!(layout.update_buffer(edited), LayoutAction::Keep);
    assert_eq!(layout.size(), Size { width: 90, height: 20 });
}

#[test]
fn equal_text_in_another_buffer_is_built_again() {
    let (mut layout, _) = TextLayout::new(TextBuffer::from("hello"), None);
    layout.install(Some(two_lines()));
    let action = layout.update_buffer(TextBuffer::from("hello"));
    assert_eq!(action, LayoutAction::Build { text: "hello".to_string(), width: None });
}

#[test]
fn buffer_changed_goes_by_the_flag() {
    let buffer = TextBuffer::from("hello");
    let (mut layout, _) = TextLayout::new(buffer.clone(), Some(5));
    layout.install(Some(two_lines()));
    assert_eq!(layout.buffer_changed(buffer.clone(), true), LayoutAction::Keep);
    assert_eq!(layout.size(), Size { width: 120, height: 36 });
    assert_eq!(
        layout.buffer_changed(buffer, false),
        LayoutAction::Build { text: "hello".to_string(), width: Some(5) }
    );
    assert_eq!(layout.size(), Size { width: 0, height: 0 });
    assert_eq!(layout.buffer_changed(TextBuffer::new(), false), LayoutAction::Keep);
}

#[test]
fn width_change_asks_for_a_reflow_not_a_build() {
    let (mut layout, _) = TextLayout::new(TextBuffer::from("hello friends"), Some(200));
    layout.install(Some(two_lines()));
    assert_eq!(layout.update_width(Some(50)), LayoutAction::Reflow { width: Some(50) });
    assert_eq!(layout.size(), Size { width: 120, height: 36 });
    layout.reflowed(Some(ShapedLayout {
        width: 48,
        lines: vec![
            LineMetric { cumulative_height: 18, baseline: 14 },
            LineMetric { cumulative_height: 36, baseline: 14 },
            LineMetric { cumulative_height: 54, baseline: 14 },
        ],
    }));
    assert_eq!(layout.size(), Size { width: 48, height: 54 });
    assert_eq!(layout.update_width(None), LayoutAction::Reflow { width: None });
    let mut edited = TextBuffer::from("hello friends");
    edited.push("!");
    assert_eq!(
        layout.update_buffer(edited),
        LayoutAction::Build { text: "hello friends!".to_string(), width: None }
    );
}

#[test]
fn failed_reflow_leaves_nothing_shaped() {
    let (mut layout, _) = TextLayout::new(TextBuffer::from("hello"), Some(200));
    layout.install(Some(two_lines()));
    layout.reflowed(None);
    assert_eq!(layout.size(), Size { width: 0, height: 0 });
    layout.reflowed(Some(two_lines()));
    assert_eq!(layout.size(), Size { width: 0, height: 0 });
}

#[test]
fn hit_offsets_land_on_code_point_boundaries() {
    let text = "a\u{e9}\u{4e16}\u{1f600}z";
    let buffer = TextBuffer::from(text);
    let (mut layout, _) = TextLayout::new(buffer, None);
    layout.install(Some(two_lines()));
    let expected = [0, 1, 1, 3, 3, 3, 6, 6, 6, 6, 10, 11, 11, 11];
    for hit in 0..expected.len() {
        let offset = layout.offset_for_point(hit);
        assert_eq!(offset, expected[hit]);
        assert!(text.is_char_boundary(offset));
    }
    assert_eq!(layout.offset_for_point(usize::MAX), 11);
}

#[test]
fn wrapper_measures_what_it_holds() {
    let buffer = TextBuffer::from("h\u{e9}");
    let unbuilt = LayoutWrapper::for_buffer(&buffer, None);
    assert_eq!(unbuilt.size(), Size { width: 0, height: 0 });
    assert_eq!(unbuilt.offset_for_point(&buffer, 2), 0);
    assert_eq!(unbuilt.reflow_request(Some(3)), LayoutAction::Keep);
    let mut built = LayoutWrapper::for_buffer(&buffer, Some(two_lines()));
    assert_eq!(built.size(), Size { width: 120, height: 36 });
    assert_eq!(built.first_baseline(), 14);
    assert_eq!(built.offset_for_point(&buffer, 2), 1);
    assert_eq!(built.offset_for_point(&buffer, 3), 3);
    assert_eq!(built.reflow_request(Some(3)), LayoutAction::Reflow { width: Some(3) });
    built.update_width(Some(ShapedLayout { width: 3, lines: vec![] }));
    assert_eq!(built.size(), Size { width: 3, height: 0 });
    assert_eq!(
        LayoutWrapper::request_for(&buffer, None),
        LayoutAction::Build { text: "h\u{e9}".to_string(), width: None }
    );
    assert_eq!(LayoutWrapper::request_for(&TextBuffer::new(), Some(1)), LayoutAction::Keep);
}

#[test]
fn application_answers() {
    assert_eq!(Application::get_locale(), "en-US");
    assert_eq!(Application::clipboard(), Clipboard);
}
