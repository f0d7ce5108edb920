use std::sync::Arc;

use sinab::dom::Document;
use sinab::dom::Node;
use sinab::dom::NodeData;
use sinab::graphics_engine::font::Font;
use sinab::graphics_engine::font::FontError;
use sinab::graphics_engine::font::GlyphAdvance;
use sinab::graphics_engine::renderer::DrawCommand;
use sinab::graphics_engine::renderer::Fontface;
use sinab::graphics_engine::renderer::GContextImpl;
use sinab::graphics_engine::renderer::RenderDevice;
use sinab::layout::flow::inline::InlineFormattingContext;
use sinab::layout2::add_newline;
use sinab::layout2::add_space;
use sinab::layout2::apply_style_attributes;
use sinab::layout2::make_text_boxes;
use sinab::layout2::maybe_add_space;
use sinab::layout2::maybe_remove_space;
use sinab::layout2::process_node;
use sinab::layout2::render_html;
use sinab::layout2::render_inline_boxes;
use sinab::layout2::InlineBox;
use sinab::layout2::InlineBoxContent;
use sinab::layout2::LayoutContext;
use sinab::primitives::RGBA;
use sinab::style::properties::ComputedValues;
use sinab::style::values::fontfamily::FontFamily;
use sinab::style::values::fonts::FontSize;
use sinab::style::values::fonts::FontStyle;
use sinab::style::values::fonts::FontWeight;
use sinab::style::values::length::Length;

fn px(n: i32) -> Length {
    Length::from_px(n)
}

fn font() -> Font {
    let mut advances = Vec::new();
    advances.push(GlyphAdvance { glyph: ' ', advance: px(5) });
    for glyph in "abcdefghijklmnopqrstuvwxyz".chars() {
        advances.push(GlyphAdvance { glyph, advance: px(10) });
    }
    Font::new("sans", FontStyle::Normal, FontWeight::Normal, px(20), px(15), px(5), advances)
        .unwrap()
}

const RED: RGBA = RGBA(255, 0, 0, 255);

/// The row as text: words as they are, `_` for a space, `/` for a break.
fn shape(boxes: &Vec<InlineBox>) -> String {
    boxes
        .iter()
        .map(|b| match &b.content {
            InlineBoxContent::Space => "_".to_string(),
            InlineBoxContent::Linebreak => "/".to_string(),
            InlineBoxContent::Text(word) => word.iter().collect(),
        })
        .collect::<Vec<String>>()
        .join(" ")
}

fn row_of(texts: &[&str]) -> Vec<InlineBox> {
    let mut boxes = Vec::new();
    for text in texts {
        make_text_boxes(&mut boxes, text, &font(), RED).unwrap();
    }
    boxes
}

#[test]
fn words_are_separated_by_one_space() {
    assert_eq!(shape(&row_of(&["ab  cd\tef"])), "ab _ cd _ ef");
    assert_eq!(shape(&row_of(&["ab"])), "ab");
    assert_eq!(shape(&row_of(&[""])), "");
    assert_eq!(shape(&row_of(&["   "])), "");
}

#[test]
fn white_space_at_the_ends_of_a_text_joins_it_to_its_neighbours() {
    assert_eq!(shape(&row_of(&["ab ", "cd"])), "ab _ cd");
    assert_eq!(shape(&row_of(&["ab", " cd"])), "ab _ cd");
    assert_eq!(shape(&row_of(&["ab ", " cd"])), "ab _ cd");
    assert_eq!(shape(&row_of(&["ab", "cd"])), "ab cd");
    // No space at the start of the row.
    assert_eq!(shape(&row_of(&[" ab"])), "ab");
    // A text without white space at its end takes the space before it away.
    assert_eq!(shape(&row_of(&["ab ", ""])), "ab");
}

#[test]
fn boxes_have_the_measures_of_their_font() {
    let boxes = row_of(&["ab cde "]);
    assert_eq!(shape(&boxes), "ab _ cde _");
    assert_eq!(boxes[0].width, px(20));
    assert_eq!(boxes[1].width, px(5));
    assert_eq!(boxes[2].width, px(30));
    for b in &boxes {
        assert_eq!(b.linespacing, px(24));
    }
    assert_eq!(boxes[0].color, RED);
    assert_eq!(boxes[1].color, RGBA(0, 0, 0, 0));
}

#[test]
fn a_text_that_the_font_lacks_adds_nothing() {
    let mut boxes = row_of(&["ab "]);
    let result = make_text_boxes(&mut boxes, "cd e?", &font(), RED);
    assert_eq!(result, Err(FontError::GeneralError));
    assert_eq!(shape(&boxes), "ab _");
}

#[test]
fn spaces_and_breaks_are_added_and_removed() {
    let mut boxes = Vec::new();
    maybe_add_space(&mut boxes, &font());
    assert_eq!(shape(&boxes), "");
    maybe_remove_space(&mut boxes);
    assert_eq!(shape(&boxes), "");
    add_space(&mut boxes, &font());
    assert_eq!(shape(&boxes), "_");
    maybe_add_space(&mut boxes, &font());
    assert_eq!(shape(&boxes), "_");
    add_newline(&mut boxes, &font());
    assert_eq!(shape(&boxes), "/");
    maybe_add_space(&mut boxes, &font());
    assert_eq!(shape(&boxes), "/");
    add_newline(&mut boxes, &font());
    assert_eq!(shape(&boxes), "/ /");
    assert_eq!(boxes[0].width, px(0));
    let mut words = row_of(&["ab"]);
    maybe_add_space(&mut words, &font());
    assert_eq!(shape(&words), "ab _");
    maybe_remove_space(&mut words);
    assert_eq!(shape(&words), "ab");
    maybe_remove_space(&mut words);
    assert_eq!(shape(&words), "ab");
}

fn labels(rdev: &RenderDevice) -> Vec<(String, Length, Length)> {
    rdev.commands
        .iter()
        .map(|command| match command {
            DrawCommand::Text { label, x, y, .. } => (label.iter().collect(), *x, *y),
            _ => panic!("a row draws text only"),
        })
        .collect()
}

#[test]
fn a_row_is_drawn_word_by_word() {
    let mut boxes = row_of(&["ab cd"]);
    add_newline(&mut boxes, &font());
    make_text_boxes(&mut boxes, "e", &font(), RED).unwrap();
    let mut rdev = RenderDevice::new();
    render_inline_boxes(&boxes, &mut rdev);
    let x0 = Length::new(1228);
    let y0 = px(192);
    assert_eq!(
        labels(&rdev),
        vec![
            ("ab".to_string(), x0, y0),
            ("cd".to_string(), x0 + px(25), y0),
            ("e".to_string(), x0, y0 + px(24)),
        ]
    );
    match &rdev.commands[0] {
        DrawCommand::Text { gc, .. } => assert_eq!(gc.0.color(), RED),
        _ => panic!("a row draws text only"),
    }
}

fn node(data: NodeData, children: Vec<Node>) -> Node {
    Node { data, style: Arc::new(ComputedValues::initial()), font: font(), children }
}

fn element(name: &str, children: Vec<Node>) -> Node {
    node(NodeData::Element { name: name.to_string() }, children)
}

fn text(contents: &str) -> Node {
    node(NodeData::Text { contents: contents.to_string() }, vec![])
}

fn paragraph() -> Node {
    element(
        "p",
        vec![
            text("ab, "),
            element("em", vec![text("cd")]),
            node(NodeData::Other, vec![]),
            element("br", vec![]),
            text(" ef"),
        ],
    )
}

fn with_comma() -> Font {
    let mut advances = font().0.advances.clone();
    advances.push(GlyphAdvance { glyph: ',', advance: px(3) });
    Font::new("sans", FontStyle::Normal, FontWeight::Normal, px(20), px(15), px(5), advances)
        .unwrap()
}

#[test]
fn a_tree_of_nodes_becomes_one_row() {
    let mut tree = paragraph();
    tree.children[0].font = with_comma();
    let mut boxes = Vec::new();
    process_node(&mut boxes, &tree).unwrap();
    assert_eq!(shape(&boxes), "ab, _ cd / ef");
}

#[test]
fn a_tree_with_text_that_its_font_lacks_is_refused() {
    let mut boxes = Vec::new();
    assert_eq!(process_node(&mut boxes, &paragraph()), Err(FontError::GeneralError));
    let style = Arc::new(ComputedValues::initial());
    let document =
        Document { root: paragraph(), content: InlineFormattingContext::new(&style, font()) };
    let mut rdev = RenderDevice::new();
    let drawn = render_html(&LayoutContext { document: &document }, &mut rdev);
    assert_eq!(drawn, Err(FontError::GeneralError));
    assert!(rdev.commands.is_empty());
}

#[test]
fn a_document_is_drawn_as_a_row() {
    let style = Arc::new(ComputedValues::initial());
    let mut root = paragraph();
    root.children[0].font = with_comma();
    let document = Document { root, content: InlineFormattingContext::new(&style, font()) };
    let mut rdev = RenderDevice::new();
    render_html(&LayoutContext { document: &document }, &mut rdev).unwrap();
    let drawn: Vec<String> = labels(&rdev).into_iter().map(|(label, _, _)| label).collect();
    assert_eq!(drawn, vec!["ab,".to_string(), "cd".to_string(), "ef".to_string()]);
    assert_eq!(labels(&rdev)[2].1, Length::new(1228));
    assert_eq!(labels(&rdev)[2].2, px(192 + 24));
}

#[test]
fn a_style_sets_up_a_context() {
    let mut style = ComputedValues::initial();
    style.color.color = RGBA(1, 2, 3, 255);
    style.font.font_style = FontStyle::Italic;
    style.font.font_weight = FontWeight::Bold;
    style.font.font_size = FontSize(px(30));
    style.font.font_family = FontFamily::GenericSerif;
    let gc = apply_style_attributes(&style, &GContextImpl::new());
    assert_eq!(gc.color(), RGBA(1, 2, 3, 255));
    assert_eq!(gc.fontface(), Fontface::BoldItalics);
    assert_eq!(gc.fontsize(), px(30));
    assert_eq!(gc.fontfamily(), "serif");
    assert_eq!(gc.fill(), RGBA(255, 255, 255, 255));
}

#[test]
fn colors_are_written_as_css_writes_them() {
    assert_eq!(RGBA(255, 0, 0, 255).to_string(), "#ff0000");
    assert_eq!(RGBA(0, 128, 0, 255).to_string(), "#008000");
    assert_eq!(RGBA(255, 0, 0, 128).to_string(), "#ff000080");
    assert_eq!(RGBA(1, 35, 171, 0).to_string(), "#0123ab00");
}
