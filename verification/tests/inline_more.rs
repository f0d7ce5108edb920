use std::sync::Arc;

use sinab::geom::flow_relative::Rect;
use sinab::graphics_engine::font::Font;
use sinab::graphics_engine::font::GlyphAdvance;
use sinab::layout::flow::inline::InlineBox;
use sinab::layout::flow::inline::InlineFormattingContext;
use sinab::layout::flow::inline::InlineLevelBox;
use sinab::layout::flow::inline::TextRun;
use sinab::layout::flow::FlowChildren;
use sinab::layout::fragments::BoxFragment;
use sinab::layout::fragments::Fragment;
use sinab::layout::positioned::AbsolutelyPositionedBox;
use sinab::layout::positioned::AbsolutelyPositionedFragment;
use sinab::layout::positioned::FloatBox;
use sinab::layout::ContainingBlock;
use sinab::layout::LayoutError;
use sinab::style::properties::ComputedValues;
use sinab::style::values::box_::DisplayOutside;
use sinab::style::values::box_::Position;
use sinab::style::values::fonts::FontSize;
use sinab::style::values::fonts::FontStyle;
use sinab::style::values::fonts::FontWeight;
use sinab::style::values::length::Length;
use sinab::style::values::length::LengthOrAuto;
use sinab::style::values::length::LengthOrPercentage;
use sinab::style::values::length::LengthOrPercentageOrAuto;
use sinab::style::values::length::LengthOrPercentageOrNumber;
use sinab::style::values::length::Number;
use sinab::style::values::length::Percentage;
use sinab::style::values::line::VerticalAlign;
use sinab::style::values::text::TextAlign;
use sinab::style::values::text::WhiteSpace;
use sinab::style::values::writing_modes::Direction;
use sinab::style::values::writing_modes::WritingMode;

fn px(n: i32) -> Length {
    Length::from_px(n)
}

/// A font of `size` px with an ascent of three quarters and a descent of
/// one quarter of its size, letters of `size` px and spaces of half that.
fn font_of(size: i32) -> Font {
    let mut advances = Vec::new();
    advances.push(GlyphAdvance { glyph: ' ', advance: px(size / 2) });
    for glyph in "abcdefghijklmnopqrstuvwxyz".chars() {
        advances.push(GlyphAdvance { glyph, advance: px(size) });
    }
    Font::new(
        "sans",
        FontStyle::Normal,
        FontWeight::Normal,
        px(size),
        px(size * 3 / 4),
        px(size / 4),
        advances,
    )
    .unwrap()
}

/// The initial style at a font size of `size` px with a line height as
/// high as the font.
fn style_of(size: i32) -> ComputedValues {
    let mut style = ComputedValues::initial();
    style.font.font_size = FontSize(px(size));
    style.line_inherited.line_height = LengthOrPercentageOrNumber::Length(px(size));
    style
}

fn block(width: i32) -> ContainingBlock {
    ContainingBlock {
        inline_size: px(width),
        block_size: LengthOrAuto::Auto,
        mode: (WritingMode::HorizontalTb, Direction::Ltr),
    }
}

fn text_run(style: &Arc<ComputedValues>, size: i32, text: &str) -> InlineLevelBox {
    InlineLevelBox::TextRun(TextRun {
        parent_style: style.clone(),
        text: text.chars().collect(),
        font: font_of(size),
    })
}

fn inline_box(style: &Arc<ComputedValues>, size: i32, children: Vec<InlineLevelBox>) -> InlineLevelBox {
    InlineLevelBox::InlineBox(InlineBox {
        style: style.clone(),
        font: font_of(size),
        first_fragment: true,
        last_fragment: true,
        children,
    })
}

fn try_layout(
    boxes: Vec<InlineLevelBox>,
    style: &Arc<ComputedValues>,
    width: i32,
    absolutes: &mut Vec<AbsolutelyPositionedFragment>,
) -> Result<FlowChildren, LayoutError> {
    let mut ifc = InlineFormattingContext::new(style, font_of(16));
    ifc.inline_level_boxes = boxes;
    ifc.layout(&block(width), 7, absolutes)
}

fn layout(boxes: Vec<InlineLevelBox>, style: &Arc<ComputedValues>, width: i32) -> FlowChildren {
    try_layout(boxes, style, width, &mut Vec::new()).unwrap()
}

fn children(fragment: &Fragment) -> &Vec<Fragment> {
    match fragment {
        Fragment::Anonymous(a) => &a.children,
        Fragment::Box(b) => &b.children,
        Fragment::Text(_) => panic!("a text fragment has no children"),
    }
}

fn glyphs(fragment: &Fragment) -> String {
    match fragment {
        Fragment::Text(t) => t.text.glyphs.iter().collect(),
        _ => panic!("not a text fragment"),
    }
}

fn as_box(fragment: &Fragment) -> &BoxFragment {
    match fragment {
        Fragment::Box(b) => b,
        _ => panic!("not a box fragment"),
    }
}

fn rect(fragment: &Fragment) -> Rect<Length> {
    match fragment {
        Fragment::Anonymous(a) => a.rect,
        Fragment::Box(b) => b.content_rect,
        Fragment::Text(t) => t.content_rect,
    }
}

fn words(flow: &FlowChildren) -> Vec<Vec<String>> {
    flow.fragments.iter().map(|line| children(line).iter().map(glyphs).collect()).collect()
}

fn assert_rect(r: Rect<Length>, inline: i32, block: i32, width: i32, height: i32) {
    assert_eq!(r.start_corner.inline, px(inline));
    assert_eq!(r.start_corner.block, px(block));
    assert_eq!(r.size.inline, px(width));
    assert_eq!(r.size.block, px(height));
}

#[test]
fn no_boxes_give_one_empty_line() {
    let style = Arc::new(style_of(16));
    let flow = layout(vec![], &style, 100);
    assert_eq!(flow.fragments.len(), 1);
    assert_eq!(children(&flow.fragments[0]).len(), 0);
    assert_rect(rect(&flow.fragments[0]), 0, 0, 100, 0);
    assert_eq!(flow.block_size, px(0));
    assert!(!flow.collapsible_margins_in_children.collapsed_through);
}

#[test]
fn a_word_that_is_too_wide_is_placed_whole() {
    let style = Arc::new(style_of(16));
    let flow = layout(vec![text_run(&style, 16, "abcdefgh")], &style, 50);
    assert_eq!(words(&flow), vec![vec!["abcdefgh".to_string()]]);
    assert_rect(rect(&children(&flow.fragments[0])[0]), 0, 0, 128, 16);
}

#[test]
fn a_word_that_is_too_wide_gets_a_line_of_its_own() {
    let style = Arc::new(style_of(16));
    let flow = layout(vec![text_run(&style, 16, "ab abcdefgh cd")], &style, 50);
    assert_eq!(
        words(&flow),
        vec![vec!["ab".to_string()], vec!["abcdefgh".to_string()], vec!["cd".to_string()]]
    );
    for line in &flow.fragments {
        assert_eq!(rect(&children(line)[0]).start_corner.inline, px(0));
    }
    assert_eq!(flow.block_size, px(48));
}

#[test]
fn a_run_that_does_not_fit_after_another_starts_a_new_line() {
    let style = Arc::new(style_of(16));
    let flow = layout(
        vec![text_run(&style, 16, "abc"), text_run(&style, 16, "defgh")],
        &style,
        100,
    );
    assert_eq!(words(&flow), vec![vec!["abc".to_string()], vec!["defgh".to_string()]]);
    assert_eq!(rect(&children(&flow.fragments[1])[0]).start_corner.inline, px(0));
}

#[test]
fn runs_share_a_line_while_they_fit() {
    let style = Arc::new(style_of(16));
    let flow = layout(vec![text_run(&style, 16, "ab "), text_run(&style, 16, "cd")], &style, 100);
    assert_eq!(words(&flow), vec![vec!["ab ".to_string(), "cd".to_string()]]);
    assert_rect(rect(&children(&flow.fragments[0])[0]), 0, 0, 40, 16);
    assert_rect(rect(&children(&flow.fragments[0])[1]), 40, 0, 32, 16);
}

#[test]
fn a_newline_breaks_the_line_in_wrap_mode_too() {
    let style = Arc::new(style_of(16));
    let flow = layout(vec![text_run(&style, 16, "ab  \ncd")], &style, 1000);
    // The spaces before the newline are dropped.
    assert_eq!(words(&flow), vec![vec!["ab".to_string()], vec!["cd".to_string()]]);
    let empty_lines = layout(vec![text_run(&style, 16, "\n\nab")], &style, 1000);
    assert_eq!(words(&empty_lines), vec![vec![], vec![], vec!["ab".to_string()]]);
}

#[test]
fn nowrap_text_has_a_line_for_each_newline() {
    let mut nowrap = style_of(16);
    nowrap.text_inherited.white_space = WhiteSpace::Nowrap;
    let nowrap = Arc::new(nowrap);
    for width in [0, 1, 50, 5000] {
        let flow = layout(vec![text_run(&nowrap, 16, "ab cd\n\nef gh ij\n")], &nowrap, width);
        assert_eq!(
            words(&flow),
            vec![vec!["ab cd".to_string()], vec![], vec!["ef gh ij".to_string()], vec![]]
        );
    }
    let none = layout(vec![text_run(&nowrap, 16, "ab cd ef gh")], &nowrap, 10);
    assert_eq!(none.fragments.len(), 1);
}

#[test]
fn the_block_size_is_the_sum_of_the_lines() {
    let small = Arc::new(style_of(16));
    let large = Arc::new(style_of(32));
    let flow = layout(
        vec![
            text_run(&small, 16, "ab cd "),
            inline_box(&large, 32, vec![text_run(&large, 32, "ef gh")]),
            text_run(&small, 16, " ij"),
        ],
        &small,
        100,
    );
    let mut sum = px(0);
    for line in &flow.fragments {
        assert!(matches!(line, Fragment::Anonymous(_)));
        assert_eq!(rect(line).start_corner.block, sum);
        sum = sum + rect(line).size.block;
    }
    assert_eq!(flow.block_size, sum);
    assert!(flow.fragments.len() > 1);
}

#[test]
fn a_larger_font_pushes_the_baseline_down() {
    let small = Arc::new(style_of(16));
    let large = Arc::new(style_of(32));
    let flow = layout(
        vec![
            text_run(&small, 16, "ab"),
            inline_box(&large, 32, vec![text_run(&large, 32, "c")]),
        ],
        &small,
        1000,
    );
    assert_eq!(flow.fragments.len(), 1);
    let line = &flow.fragments[0];
    // The line is as high as the large font: ascent 24, descent 8.
    assert_rect(rect(line), 0, 0, 1000, 32);
    // The small text moves down by what the ascents differ by.
    assert_rect(rect(&children(line)[0]), 0, 12, 32, 16);
    // The box is set with its baseline on that of the line.
    let boxed = as_box(&children(line)[1]);
    assert_rect(boxed.content_rect, 32, 0, 32, 32);
    assert_rect(rect(&boxed.children[0]), 0, 0, 32, 32);
}

#[test]
fn half_leading_goes_above_and_below() {
    let mut style = style_of(16);
    style.line_inherited.line_height = LengthOrPercentageOrNumber::Number(Number { thousandths: 1500 });
    let style = Arc::new(style);
    let flow = layout(vec![text_run(&style, 16, "ab")], &style, 1000);
    // Line height 24, font 16: 4 above and 4 below.
    assert_rect(rect(&flow.fragments[0]), 0, 0, 1000, 24);
    assert_rect(rect(&children(&flow.fragments[0])[0]), 0, 4, 32, 24);
    assert_eq!(flow.block_size, px(24));
}

fn aligned(align: VerticalAlign) -> Rect<Length> {
    let mut boxed = style_of(16);
    boxed.line_reset.vertical_align = align;
    boxed.line_inherited.line_height = LengthOrPercentageOrNumber::Length(px(20));
    let boxed = Arc::new(boxed);
    let style = Arc::new(style_of(16));
    let flow =
        layout(vec![text_run(&style, 16, "a"), inline_box(&boxed, 16, vec![])], &style, 1000);
    as_box(&children(&flow.fragments[0])[1]).content_rect
}

#[test]
fn vertical_align_moves_the_baseline_of_a_box() {
    assert_eq!(aligned(VerticalAlign::Baseline).start_corner.block, px(0));
    assert_eq!(aligned(VerticalAlign::Top).start_corner.block, px(0));
    // Half the ascent of the parent, which is 12.
    assert_eq!(aligned(VerticalAlign::Sub).start_corner.block, px(6));
    assert_eq!(aligned(VerticalAlign::Super).start_corner.block, px(-6));
    // Half of 1ex up, which is 4 of 8, then the descent down.
    assert_eq!(aligned(VerticalAlign::Middle).start_corner.block, px(0));
    assert_eq!(aligned(VerticalAlign::Length(px(5))).start_corner.block, px(-5));
    // A quarter of the line height of 20.
    assert_eq!(
        aligned(VerticalAlign::Percentage(Percentage { thousandths: 250 })).start_corner.block,
        px(-5)
    );
}

#[test]
fn a_line_without_text_stands_on_no_ascent() {
    let style = Arc::new(style_of(16));
    let flow = layout(vec![inline_box(&style, 16, vec![])], &style, 1000);
    // Nothing on the line reaches up to the ascent of the container's font,
    // so what is on it moves up by that ascent.
    assert_rect(rect(&flow.fragments[0]), 0, 0, 1000, 0);
    assert_rect(as_box(&children(&flow.fragments[0])[0]).content_rect, 0, -12, 0, 16);
}

#[test]
fn a_raised_box_raises_the_line() {
    let mut raised = style_of(16);
    raised.line_reset.vertical_align = VerticalAlign::Length(px(10));
    let raised = Arc::new(raised);
    let style = Arc::new(style_of(16));
    let flow = layout(
        vec![text_run(&style, 16, "a"), inline_box(&raised, 16, vec![text_run(&raised, 16, "b")])],
        &style,
        1000,
    );
    let line = &flow.fragments[0];
    // Ascent 12 + 10 above the baseline, descent 4 below.
    assert_rect(rect(line), 0, 0, 1000, 26);
    assert_rect(rect(&children(line)[0]), 0, 10, 16, 16);
    assert_rect(as_box(&children(line)[1]).content_rect, 16, 0, 16, 16);
}

#[test]
fn edges_of_a_box_take_room_on_the_line() {
    let mut boxed = style_of(16);
    boxed.padding.padding_left = LengthOrPercentage::Length(px(1));
    boxed.border.border_left_width.0 = LengthOrPercentage::Length(px(2));
    boxed.margin.margin_left = LengthOrPercentageOrAuto::Length(px(4));
    boxed.padding.padding_right = LengthOrPercentage::Percentage(Percentage { thousandths: 100 });
    boxed.margin.margin_right = LengthOrPercentageOrAuto::Auto;
    let boxed = Arc::new(boxed);
    let style = Arc::new(style_of(16));
    let flow = layout(
        vec![inline_box(&boxed, 16, vec![text_run(&boxed, 16, "ab")]), text_run(&style, 16, "c")],
        &style,
        200,
    );
    let line = &flow.fragments[0];
    let first = as_box(&children(line)[0]);
    assert_rect(first.content_rect, 7, 0, 32, 16);
    assert_eq!(first.padding.inline_start, px(1));
    assert_eq!(first.border.inline_start, px(2));
    assert_eq!(first.margin.inline_start, px(4));
    assert_eq!(first.padding.inline_end, px(20));
    assert_eq!(first.margin.inline_end, px(0));
    // The text after the box starts after its inline-end padding.
    assert_rect(rect(&children(line)[1]), 59, 0, 16, 16);
    assert_eq!(first.padding_rect().start_corner.inline, px(6));
    assert_eq!(first.border_rect().start_corner.inline, px(4));
    assert_eq!(first.margin_rect().start_corner.inline, px(0));
    assert_eq!(first.margin_rect().size.inline, px(59));
}

#[test]
fn a_later_piece_of_an_element_has_no_start_edges() {
    let mut boxed = style_of(16);
    boxed.padding.padding_left = LengthOrPercentage::Length(px(5));
    boxed.padding.padding_right = LengthOrPercentage::Length(px(6));
    let boxed = Arc::new(boxed);
    let style = Arc::new(style_of(16));
    let piece = InlineLevelBox::InlineBox(InlineBox {
        style: boxed.clone(),
        font: font_of(16),
        first_fragment: false,
        last_fragment: false,
        children: vec![text_run(&boxed, 16, "ab")],
    });
    let flow = layout(vec![piece, text_run(&style, 16, "c")], &style, 200);
    let line = &flow.fragments[0];
    let first = as_box(&children(line)[0]);
    assert_rect(first.content_rect, 0, 0, 32, 16);
    assert_eq!(first.padding.inline_start, px(0));
    assert_eq!(first.padding.inline_end, px(0));
    assert_rect(rect(&children(line)[1]), 32, 0, 16, 16);
}

#[test]
fn nested_boxes_break_together() {
    let style = Arc::new(style_of(16));
    let inner = inline_box(&style, 16, vec![text_run(&style, 16, "ab cd")]);
    let outer = inline_box(&style, 16, vec![inner]);
    let flow = layout(vec![outer], &style, 40);
    assert_eq!(flow.fragments.len(), 2);
    for (line, word) in flow.fragments.iter().zip(["ab", "cd"]) {
        assert_eq!(children(line).len(), 1);
        let outer = as_box(&children(line)[0]);
        assert_eq!(outer.children.len(), 1);
        let inner = as_box(&outer.children[0]);
        assert_eq!(inner.children.len(), 1);
        assert_eq!(glyphs(&inner.children[0]), word);
        assert_rect(outer.content_rect, 0, 0, 32, 16);
        assert_rect(inner.content_rect, 0, 0, 32, 16);
    }
}

#[test]
fn relative_positioning_moves_a_box() {
    let mut moved = style_of(16);
    moved.box_.position = Position::Relative;
    moved.box_.left = LengthOrPercentageOrAuto::Length(px(3));
    moved.box_.bottom = LengthOrPercentageOrAuto::Length(px(4));
    let moved = Arc::new(moved);
    let style = Arc::new(style_of(16));
    let flow = layout(vec![inline_box(&moved, 16, vec![text_run(&moved, 16, "a")])], &style, 200);
    let boxed = as_box(&children(&flow.fragments[0])[0]);
    assert_rect(boxed.content_rect, 3, -4, 16, 16);
    let mut kept = style_of(16);
    kept.box_.left = LengthOrPercentageOrAuto::Length(px(3));
    let kept = Arc::new(kept);
    let flow = layout(vec![inline_box(&kept, 16, vec![text_run(&kept, 16, "a")])], &style, 200);
    assert_rect(as_box(&children(&flow.fragments[0])[0]).content_rect, 0, 0, 16, 16);
}

fn line_start(align: TextAlign) -> Length {
    let mut style = style_of(16);
    style.text_inherited.text_align = align;
    let style = Arc::new(style);
    let flow = layout(vec![text_run(&style, 16, "ab")], &style, 100);
    rect(&flow.fragments[0]).start_corner.inline
}

#[test]
fn text_align_divides_the_free_space() {
    assert_eq!(line_start(TextAlign::Left), px(0));
    assert_eq!(line_start(TextAlign::Justify), px(0));
    assert_eq!(line_start(TextAlign::Center), px(34));
    assert_eq!(line_start(TextAlign::Right), px(68));
    assert_eq!(line_start(TextAlign::Percentage(Percentage { thousandths: 250 })), px(17));
}

#[test]
fn absolutely_positioned_boxes_are_handed_on() {
    let style = Arc::new(style_of(16));
    let inline = InlineLevelBox::OutOfFlowAbsolutelyPositionedBox(AbsolutelyPositionedBox {
        style: style.clone(),
        outside: DisplayOutside::Inline,
    });
    let blockish = InlineLevelBox::OutOfFlowAbsolutelyPositionedBox(AbsolutelyPositionedBox {
        style: style.clone(),
        outside: DisplayOutside::Block,
    });
    let float = InlineLevelBox::OutOfFlowFloatBox(FloatBox { style: style.clone() });
    let mut absolutes = Vec::new();
    let flow = try_layout(
        vec![text_run(&style, 16, "ab\ncd"), inline, float, blockish, text_run(&style, 16, "e")],
        &style,
        200,
        &mut absolutes,
    )
    .unwrap();
    // Neither the floats nor the absolutely positioned boxes take room.
    assert_eq!(
        words(&flow),
        vec![vec!["ab".to_string()], vec!["cd".to_string(), "e".to_string()]]
    );
    assert_rect(rect(&children(&flow.fragments[1])[1]), 32, 0, 16, 16);
    assert_eq!(absolutes.len(), 2);
    assert_eq!(absolutes[0].tree_rank, 7);
    assert_eq!(absolutes[0].static_start_corner.inline, px(32));
    assert_eq!(absolutes[0].static_start_corner.block, px(16));
    assert_eq!(absolutes[1].static_start_corner.inline, px(0));
    assert_eq!(absolutes[1].static_start_corner.block, px(16));
}

#[test]
fn atomic_content_is_refused() {
    let style = Arc::new(style_of(16));
    let atomic = InlineLevelBox::Atomic { style: style.clone() };
    let nested = inline_box(&style, 16, vec![text_run(&style, 16, "ab"), atomic]);
    let mut absolutes = Vec::new();
    let result = try_layout(vec![text_run(&style, 16, "ab"), nested], &style, 200, &mut absolutes);
    assert!(matches!(result, Err(LayoutError::UnsupportedContent)));
    assert!(absolutes.is_empty());
}

#[test]
fn text_that_the_font_lacks_is_refused() {
    let style = Arc::new(style_of(16));
    let result = try_layout(vec![text_run(&style, 16, "ab?")], &style, 200, &mut Vec::new());
    assert!(matches!(result, Err(LayoutError::MeasurementFailure)));
    // The first obstacle in document order is the one reported.
    let atomic = InlineLevelBox::Atomic { style: style.clone() };
    let result =
        try_layout(vec![atomic, text_run(&style, 16, "ab?")], &style, 200, &mut Vec::new());
    assert!(matches!(result, Err(LayoutError::UnsupportedContent)));
}

#[test]
fn layout_gives_the_same_fragments_each_time() {
    let style = Arc::new(style_of(16));
    let boxes = || {
        vec![
            text_run(&style, 16, "ab cd "),
            inline_box(&style, 16, vec![text_run(&style, 16, "ef gh")]),
        ]
    };
    let first = layout(boxes(), &style, 70);
    let second = layout(boxes(), &style, 70);
    assert_eq!(words_deep(&first.fragments), words_deep(&second.fragments));
    assert_eq!(first.block_size, second.block_size);
}

fn words_deep(fragments: &Vec<Fragment>) -> String {
    let mut out = String::new();
    for fragment in fragments {
        let r = rect(fragment);
        out.push_str(&format!("{:?}", r));
        match fragment {
            Fragment::Text(_) => out.push_str(&glyphs(fragment)),
            _ => {
                out.push('[');
                out.push_str(&words_deep(children(fragment)));
                out.push(']');
            }
        }
    }
    out
}

#[test]
fn fragments_share_the_styles_and_fonts_of_their_boxes() {
    let style = Arc::new(style_of(16));
    let boxed = Arc::new(style_of(16));
    let font = font_of(16);
    let run = InlineLevelBox::TextRun(TextRun {
        parent_style: boxed.clone(),
        text: "ab".chars().collect(),
        font: font.share(),
    });
    let flow = layout(vec![inline_box(&boxed, 16, vec![run])], &style, 200);
    let fragment = as_box(&children(&flow.fragments[0])[0]);
    assert!(Arc::ptr_eq(&fragment.style, &boxed));
    match &fragment.children[0] {
        Fragment::Text(t) => {
            assert!(Arc::ptr_eq(&t.parent_style, &boxed));
            assert!(std::rc::Rc::ptr_eq(&t.text.font.0, &font.0));
        }
        _ => panic!("the box holds the text"),
    }
}

/// A 16px font with an ascent of 10px and a descent of 6px, letters of
/// 20px and spaces of 10px.
fn low_font() -> Font {
    let mut advances = Vec::new();
    advances.push(GlyphAdvance { glyph: ' ', advance: px(10) });
    for glyph in "abcdefghijklmnopqrstuvwxyz".chars() {
        advances.push(GlyphAdvance { glyph, advance: px(20) });
    }
    Font::new("sans", FontStyle::Normal, FontWeight::Normal, px(16), px(10), px(6), advances)
        .unwrap()
}

fn middle_box(font: Font) -> Rect<Length> {
    let mut boxed = style_of(16);
    boxed.line_reset.vertical_align = VerticalAlign::Middle;
    let boxed = Arc::new(boxed);
    let style = Arc::new(style_of(16));
    let inline = InlineLevelBox::InlineBox(InlineBox {
        style: boxed.clone(),
        font,
        first_fragment: true,
        last_fragment: true,
        children: vec![],
    });
    // The text before the box holds the line on the baseline of the
    // container: its ascent is that of the container's font.
    let flow = layout(vec![text_run(&style, 16, "a"), inline], &style, 1000);
    as_box(&children(&flow.fragments[0])[1]).content_rect
}

#[test]
fn middle_sets_the_middle_of_the_box_half_an_ex_above_the_baseline() {
    // The container's font: ascent 12, descent 4, 1ex 8.
    // Ascent 10 and descent 6: the middle lies 2 above the baseline of the
    // box, and is to lie 4 above that of the parent. The box moves up by 2.
    // Its top is then 12 above the baseline of the parent, where the line
    // starts.
    let low = middle_box(low_font());
    assert_eq!(low.size.block, px(16));
    assert_eq!(low.start_corner.block, px(0));
    // Ascent 12 and descent 4: the middle lies 4 above the baseline of the
    // box already. The box does not move.
    let same = middle_box(font_of(16));
    assert_eq!(same.start_corner.block, px(0));
    // Ascent 24 and descent 8: the middle lies 8 above the baseline of the
    // box. The box moves down by 4, and is set 12 higher than a box of the
    // container's font for its larger ascent.
    let large = middle_box(font_of(32));
    assert_eq!(large.start_corner.block, px(4 + 12 - 24));
}

#[test]
fn middle_moves_the_baseline_by_half_the_ascent_less_half_the_descent_and_half_an_ex() {
    // Text in the box shows where its baseline lies: the text of a box
    // that moved up by 2 stands 2 higher than the text before the box.
    let mut boxed = style_of(16);
    boxed.line_reset.vertical_align = VerticalAlign::Middle;
    let boxed = Arc::new(boxed);
    let style = Arc::new(style_of(16));
    let run = InlineLevelBox::TextRun(TextRun {
        parent_style: boxed.clone(),
        text: "b".chars().collect(),
        font: low_font(),
    });
    let inline = InlineLevelBox::InlineBox(InlineBox {
        style: boxed.clone(),
        font: low_font(),
        first_fragment: true,
        last_fragment: true,
        children: vec![run],
    });
    let flow = layout(vec![text_run(&style, 16, "a"), inline], &style, 1000);
    let line = &flow.fragments[0];
    // The text in the box reaches 10 + 2 above the baseline of the line and
    // 6 - 2 below: the line is as high as before, 12 and 4.
    assert_rect(rect(line), 0, 0, 1000, 16);
    assert_rect(rect(&children(line)[0]), 0, 0, 16, 16);
    // The box is as high as its font, ascent 10 and descent 6, and its
    // baseline lies 2 above that of the line: its top is at 12 - 2 - 10.
    assert_rect(as_box(&children(line)[1]).content_rect, 16, 0, 20, 16);
}

#[test]
fn a_newline_after_a_word_that_is_too_wide_still_ends_the_line() {
    let style = Arc::new(style_of(16));
    for width in [30, 100] {
        let flow = layout(vec![text_run(&style, 16, "aa\n")], &style, width);
        assert_eq!(words(&flow), vec![vec!["aa".to_string()], vec![]]);
        let flow = layout(vec![text_run(&style, 16, "aa\nb")], &style, width);
        assert_eq!(words(&flow), vec![vec!["aa".to_string()], vec!["b".to_string()]]);
    }
}

#[test]
fn a_word_that_does_not_fit_behind_others_is_wrapped_whole() {
    let style = Arc::new(style_of(16));
    // "ab cd" is 72 wide and fits; "abcdefgh" is 128 wide and fits nowhere.
    let flow = layout(vec![text_run(&style, 16, "ab cd abcdefgh")], &style, 100);
    assert_eq!(
        words(&flow),
        vec![vec!["ab cd".to_string()], vec!["abcdefgh".to_string()]]
    );
    assert_rect(rect(&children(&flow.fragments[1])[0]), 0, 0, 128, 16);
}

#[test]
fn nowrap_text_is_laid_out_alike_at_any_width() {
    let mut nowrap = style_of(16);
    nowrap.text_inherited.white_space = WhiteSpace::Pre;
    let nowrap = Arc::new(nowrap);
    let at = |width: i32| {
        let flow = layout(vec![text_run(&nowrap, 16, "ab cd\nefgh ij")], &nowrap, width);
        flow.fragments
            .iter()
            .map(|line| {
                children(line)
                    .iter()
                    .map(|f| (glyphs(f), rect(f).start_corner.inline, rect(f).size.inline))
                    .collect::<Vec<_>>()
            })
            .collect::<Vec<_>>()
    };
    let wide = at(5000);
    assert_eq!(
        wide,
        vec![
            vec![("ab cd".to_string(), px(0), px(72))],
            vec![("efgh ij".to_string(), px(0), px(104))],
        ]
    );
    assert_eq!(at(0), wide);
    assert_eq!(at(10), wide);
    assert_eq!(at(80), wide);
}

#[test]
fn no_line_is_negative_in_height() {
    // A box that is moved far down and holds text far below the baseline:
    // the line grows downward, and no line shrinks below nothing.
    let mut sunk = style_of(16);
    sunk.line_reset.vertical_align = VerticalAlign::Length(px(-100));
    let sunk = Arc::new(sunk);
    let mut tight = style_of(16);
    tight.line_inherited.line_height = LengthOrPercentageOrNumber::Length(px(-50));
    let tight = Arc::new(tight);
    let style = Arc::new(style_of(16));
    let flow = layout(
        vec![
            inline_box(&sunk, 16, vec![text_run(&sunk, 16, "ab cd")]),
            text_run(&tight, 16, " ef gh"),
        ],
        &style,
        40,
    );
    assert!(flow.fragments.len() > 2);
    let mut total = 0;
    for line in &flow.fragments {
        assert!(rect(line).size.block.units >= 0);
        total += rect(line).size.block.units;
    }
    assert_eq!(flow.block_size.units, total);
}
