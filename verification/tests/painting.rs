use std::sync::Arc;

use sinab::dom::Document;
use sinab::dom::Node;
use sinab::dom::NodeData;
use sinab::geom::flow_relative;
use sinab::geom::physical;
use sinab::graphics_engine::font::Font;
use sinab::graphics_engine::font::GlyphAdvance;
use sinab::graphics_engine::renderer::DrawCommand;
use sinab::graphics_engine::renderer::Fontface;
use sinab::graphics_engine::renderer::RenderDevice;
use sinab::graphics_engine::shaped_segment::ShapedSegment;
use sinab::layout::flow::inline::InlineBox;
use sinab::layout::flow::inline::InlineFormattingContext;
use sinab::layout::flow::inline::InlineLevelBox;
use sinab::layout::flow::inline::TextRun;
use sinab::layout::fragments::AnonymousFragment;
use sinab::layout::fragments::BoxFragment;
use sinab::layout::fragments::CollapsedBlockMargins;
use sinab::layout::fragments::Fragment;
use sinab::layout::fragments::TextFragment;
use sinab::layout::LayoutError;
use sinab::primitives::CssPx;
use sinab::primitives::Size;
use sinab::primitives::RGBA;
use sinab::style::properties::ComputedValues;
use sinab::style::values::border::LineStyle;
use sinab::style::values::color::Color;
use sinab::style::values::fonts::FontStyle;
use sinab::style::values::fonts::FontWeight;
use sinab::style::values::length::Length;
use sinab::style::values::length::LengthOrPercentageOrNumber;
use sinab::style::values::writing_modes::Direction;
use sinab::style::values::writing_modes::WritingMode;

fn px(n: i32) -> Length {
    Length::from_px(n)
}

fn font() -> Font {
    let mut advances = Vec::new();
    advances.push(GlyphAdvance { glyph: ' ', advance: px(8) });
    for glyph in "abcdefghijklmnopqrstuvwxyz".chars() {
        advances.push(GlyphAdvance { glyph, advance: px(16) });
    }
    Font::new("sans", FontStyle::Normal, FontWeight::Bold, px(16), px(12), px(4), advances)
        .unwrap()
}

fn style() -> ComputedValues {
    let mut style = ComputedValues::initial();
    style.line_inherited.line_height = LengthOrPercentageOrNumber::Length(px(16));
    style
}

fn logical(inline: i32, block: i32, width: i32, height: i32) -> flow_relative::Rect<Length> {
    flow_relative::Rect {
        start_corner: flow_relative::Vec2 { inline: px(inline), block: px(block) },
        size: flow_relative::Vec2 { inline: px(width), block: px(height) },
    }
}

fn physical(x: i32, y: i32, width: i32, height: i32) -> physical::Rect<Length> {
    physical::Rect {
        top_left: physical::Vec2 { x: px(x), y: px(y) },
        size: physical::Vec2 { x: px(width), y: px(height) },
    }
}

fn sides(start: i32, end: i32, top: i32, bottom: i32) -> flow_relative::Sides<Length> {
    flow_relative::Sides {
        inline_start: px(start),
        inline_end: px(end),
        block_start: px(top),
        block_end: px(bottom),
    }
}

fn boxed(style: ComputedValues, children: Vec<Fragment>) -> BoxFragment {
    BoxFragment {
        style: Arc::new(style),
        children,
        content_rect: logical(20, 30, 100, 50),
        padding: sides(1, 2, 3, 4),
        border: sides(2, 4, 6, 8),
        margin: sides(10, 10, 10, 10),
        block_margins_collapsed_with_children: CollapsedBlockMargins::zero(),
    }
}

fn text(style: &Arc<ComputedValues>, glyphs: &str, rect: flow_relative::Rect<Length>) -> Fragment {
    Fragment::Text(TextFragment {
        parent_style: style.clone(),
        content_rect: rect,
        text: ShapedSegment::shape(glyphs, font()).unwrap(),
    })
}

fn bounding_box(command: &DrawCommand) -> physical::Rect<Length> {
    match command {
        DrawCommand::BoundingBox { rect } => *rect,
        _ => panic!("not a bounding box"),
    }
}

fn point(x: Length, y: Length) -> physical::Vec2<Length> {
    physical::Vec2 { x, y }
}

#[test]
fn a_plain_box_draws_its_bounding_box_only() {
    let mut rdev = RenderDevice::new();
    boxed(style(), vec![]).paint_onto(&mut rdev, &physical(5, 7, 600, 800));
    assert_eq!(rdev.commands.len(), 1);
    // The margin rect, moved by the corner of the containing block.
    assert_eq!(bounding_box(&rdev.commands[0]), physical(12, 18, 129, 91));
}

#[test]
fn a_background_fills_the_border_rect() {
    let mut colored = style();
    colored.background.background_color = Color::RGBA(RGBA(10, 20, 30, 255));
    let mut rdev = RenderDevice::new();
    boxed(colored, vec![]).paint_onto(&mut rdev, &physical(0, 0, 600, 800));
    assert_eq!(rdev.commands.len(), 2);
    match &rdev.commands[1] {
        DrawCommand::Rect { x, y, width, height, gc } => {
            assert_eq!((*x, *y, *width, *height), (px(17), px(21), px(109), px(71)));
            assert_eq!(gc.0.fill(), RGBA(10, 20, 30, 255));
            assert_eq!(gc.0.color(), RGBA(0, 0, 0, 0));
        }
        _ => panic!("the background is a rectangle"),
    }
}

#[test]
fn a_transparent_background_is_not_drawn() {
    let mut colored = style();
    colored.background.background_color = Color::RGBA(RGBA(10, 20, 30, 0));
    let mut rdev = RenderDevice::new();
    boxed(colored, vec![]).paint_onto(&mut rdev, &physical(0, 0, 600, 800));
    assert_eq!(rdev.commands.len(), 1);
    let mut current = style();
    current.color.color = RGBA(1, 2, 3, 4);
    current.background.background_color = Color::CurrentColor;
    let mut rdev = RenderDevice::new();
    boxed(current, vec![]).paint_onto(&mut rdev, &physical(0, 0, 600, 800));
    assert_eq!(rdev.commands.len(), 2);
}

#[test]
fn each_border_is_one_line_along_its_middle() {
    let mut bordered = style();
    bordered.color.color = RGBA(9, 9, 9, 255);
    bordered.border.border_top_style = LineStyle::Solid;
    bordered.border.border_right_style = LineStyle::Dotted;
    bordered.border.border_bottom_style = LineStyle::Dashed;
    bordered.border.border_left_style = LineStyle::Solid;
    bordered.border.border_left_color = Color::RGBA(RGBA(1, 2, 3, 255));
    let mut rdev = RenderDevice::new();
    boxed(bordered, vec![]).paint_onto(&mut rdev, &physical(0, 0, 600, 800));
    assert_eq!(rdev.commands.len(), 5);
    let expected = [
        // Top: 6 wide.
        (vec![point(px(17), px(24)), point(px(126), px(24))], px(6), LineStyle::Solid),
        // Right: 4 wide.
        (vec![point(px(124), px(21)), point(px(124), px(92))], px(4), LineStyle::Dotted),
        // Bottom: 8 wide, drawn backwards.
        (vec![point(px(126), px(88)), point(px(17), px(88))], px(8), LineStyle::Dashed),
        // Left: 2 wide, drawn upwards.
        (vec![point(px(18), px(92)), point(px(18), px(21))], px(2), LineStyle::Solid),
    ];
    for (command, (points, width, style)) in rdev.commands[1..].iter().zip(expected) {
        match command {
            DrawCommand::Line { points: p, color: _, width: w, style: s } => {
                assert_eq!(*p, points);
                assert_eq!(*w, width);
                assert_eq!(*s, style);
            }
            _ => panic!("a border is a line"),
        }
    }
    match (&rdev.commands[1], &rdev.commands[4]) {
        (DrawCommand::Line { color: top, .. }, DrawCommand::Line { color: left, .. }) => {
            assert_eq!(*top, RGBA(9, 9, 9, 255));
            assert_eq!(*left, RGBA(1, 2, 3, 255));
        }
        _ => panic!("a border is a line"),
    }
}

#[test]
fn a_border_without_width_or_line_is_not_drawn() {
    let mut bordered = style();
    bordered.border.border_top_style = LineStyle::Solid;
    let mut fragment = boxed(bordered, vec![]);
    fragment.border = sides(0, 0, 0, 0);
    let mut rdev = RenderDevice::new();
    fragment.paint_onto(&mut rdev, &physical(0, 0, 600, 800));
    assert_eq!(rdev.commands.len(), 1);
}

#[test]
fn text_is_drawn_on_its_baseline() {
    let mut colored = style();
    colored.color.color = RGBA(200, 100, 50, 255);
    let colored = Arc::new(colored);
    let fragment = text(&colored, "ab", logical(3, 4, 32, 16));
    let mut rdev = RenderDevice::new();
    fragment.paint_onto(&mut rdev, &physical(10, 20, 600, 800));
    assert_eq!(rdev.commands.len(), 2);
    assert_eq!(bounding_box(&rdev.commands[0]), physical(13, 24, 32, 16));
    match &rdev.commands[1] {
        DrawCommand::Text { label, x, y, gc } => {
            assert_eq!(label.iter().collect::<String>(), "ab");
            assert_eq!(*x, px(13));
            // The top of the text plus the ascent of the font.
            assert_eq!(*y, px(36));
            assert_eq!(gc.0.color(), RGBA(200, 100, 50, 255));
            assert_eq!(gc.0.fontfamily(), "sans");
            assert_eq!(gc.0.fontface(), Fontface::Bold);
        }
        _ => panic!("a text is drawn as text"),
    }
}

#[test]
fn children_are_placed_relative_to_their_parent() {
    let plain = Arc::new(style());
    let inner = Fragment::Box(boxed(style(), vec![text(&plain, "a", logical(1, 2, 16, 16))]));
    let line = Fragment::Anonymous(AnonymousFragment {
        rect: logical(100, 200, 400, 60),
        children: vec![inner, text(&plain, "b", logical(7, 0, 16, 16))],
        mode: (WritingMode::HorizontalTb, Direction::Ltr),
    });
    let mut rdev = RenderDevice::new();
    line.paint_onto(&mut rdev, &physical(1000, 2000, 600, 800));
    assert_eq!(rdev.commands.len(), 6);
    // The line itself.
    assert_eq!(bounding_box(&rdev.commands[0]), physical(1100, 2200, 400, 60));
    // The box, by its margin rect, inside the line.
    assert_eq!(bounding_box(&rdev.commands[1]), physical(1107, 2211, 129, 91));
    // The text in the box, inside the content rect of the box.
    assert_eq!(bounding_box(&rdev.commands[2]), physical(1121, 2232, 16, 16));
    assert!(matches!(&rdev.commands[3], DrawCommand::Text { label, .. } if label == &vec!['a']));
    // The text after the box, inside the line again.
    assert_eq!(bounding_box(&rdev.commands[4]), physical(1107, 2200, 16, 16));
    assert!(matches!(&rdev.commands[5], DrawCommand::Text { label, .. } if label == &vec!['b']));
}

#[test]
fn right_to_left_fragments_are_placed_from_the_right() {
    let plain = Arc::new(style());
    let line = Fragment::Anonymous(AnonymousFragment {
        rect: logical(0, 0, 400, 60),
        children: vec![text(&plain, "a", logical(0, 0, 16, 16))],
        mode: (WritingMode::HorizontalTb, Direction::Rtl),
    });
    let mut rdev = RenderDevice::new();
    line.paint_onto(&mut rdev, &physical(0, 0, 600, 800));
    assert_eq!(bounding_box(&rdev.commands[0]), physical(200, 0, 400, 60));
}

fn document(text: &str) -> Document {
    let plain = Arc::new(style());
    let mut content = InlineFormattingContext::new(&plain, font());
    content.inline_level_boxes = vec![InlineLevelBox::InlineBox(InlineBox {
        style: plain.clone(),
        font: font(),
        first_fragment: true,
        last_fragment: true,
        children: vec![InlineLevelBox::TextRun(TextRun {
            parent_style: plain.clone(),
            text: text.chars().collect(),
            font: font(),
        })],
    })];
    let root = Node {
        data: NodeData::Element { name: "p".to_string() },
        style: plain.clone(),
        font: font(),
        children: vec![Node {
            data: NodeData::Text { contents: text.to_string() },
            style: plain.clone(),
            font: font(),
            children: vec![],
        }],
    };
    Document { root, content }
}

#[test]
fn a_document_is_laid_out_on_the_page_and_drawn() {
    let mut rdev = RenderDevice::new();
    document("ab cd").paint_onto(&mut rdev, Size::<CssPx>::new(px(40), px(800))).unwrap();
    let labels: Vec<String> = rdev
        .commands
        .iter()
        .filter_map(|command| match command {
            DrawCommand::Text { label, x, y, .. } => {
                Some(format!("{}@{},{}", label.iter().collect::<String>(), x.units / 64, y.units / 64))
            }
            _ => None,
        })
        .collect();
    assert_eq!(labels, vec!["ab@0,12".to_string(), "cd@0,28".to_string()]);
    // For each of the two lines: the line, the box and the text.
    assert_eq!(rdev.commands.len(), 8);
    assert_eq!(bounding_box(&rdev.commands[0]), physical(0, 0, 40, 16));
    assert_eq!(bounding_box(&rdev.commands[4]), physical(0, 16, 40, 16));
    let (lines, absolutes) =
        document("ab cd").layout(&Size::<CssPx>::new(px(40), px(800))).unwrap();
    assert_eq!(lines.len(), 2);
    assert!(absolutes.is_empty());
}

#[test]
fn a_document_that_cannot_be_laid_out_draws_nothing() {
    let mut rdev = RenderDevice::new();
    let drawn = document("ab!").paint_onto(&mut rdev, Size::<CssPx>::new(px(40), px(800)));
    assert_eq!(drawn, Err(LayoutError::MeasurementFailure));
    assert!(rdev.commands.is_empty());
}

#[test]
fn the_device_keeps_the_calls_in_order() {
    let mut rdev = RenderDevice::new();
    rdev.record_bbox(&physical(1, 2, 3, 4));
    rdev.draw_rect(px(1), px(2), px(3), px(4), RGBA(1, 1, 1, 1));
    rdev.draw_text(&vec!['x'], px(5), px(6), &font(), RGBA(2, 2, 2, 2));
    rdev.draw_line(vec![point(px(0), px(0))], RGBA(3, 3, 3, 3), px(1), LineStyle::Dashed);
    assert!(matches!(rdev.commands[0], DrawCommand::BoundingBox { .. }));
    assert!(matches!(rdev.commands[1], DrawCommand::Rect { .. }));
    assert!(matches!(rdev.commands[2], DrawCommand::Text { .. }));
    assert!(matches!(rdev.commands[3], DrawCommand::Line { .. }));
}
