//! Line-by-line layout of plain inline boxes: words, spaces and line
//! breaks in a row, without wrapping.

use vstd::prelude::*;

use crate::dom::Document;
use crate::dom::Node;
use crate::dom::NodeData;
use crate::graphics_engine::font::family_name;
use crate::graphics_engine::font::Font;
use crate::graphics_engine::font::FontError;
use crate::graphics_engine::font::lemma_width_exists_iff_covered;
use crate::graphics_engine::font::lookup_advance;
use crate::graphics_engine::font::spec_advance;
use crate::graphics_engine::font::spec_family_name;
use crate::graphics_engine::font::spec_text_width;
use crate::graphics_engine::renderer::DrawCommandView;
use crate::graphics_engine::renderer::GContextImpl;
use crate::graphics_engine::renderer::GContextView;
use crate::graphics_engine::renderer::RenderDevice;
use crate::graphics_engine::renderer::spec_text_context;
use crate::primitives::RGBA;
use crate::style::properties::ComputedValues;
use crate::style::values::fonts::FontStyle;
use crate::style::values::fonts::FontWeight;
use crate::style::values::length::Length;
use crate::style::values::length::Number;
use crate::utils::to_chars;

verus! {

/// What an inline box holds.
pub enum InlineBoxContent {
    Space,
    Linebreak,
    Text(Vec<char>),
}

/// A word, a space or a line break, with the room that it takes.
pub struct InlineBox {
    pub content: InlineBoxContent,
    pub width: Length,
    pub linespacing: Length,
    pub font: Font,
    pub color: RGBA,
}

/// The content of an inline box as a value.
pub enum InlineBoxContentView {
    Space,
    Linebreak,
    Text(Seq<char>),
}

/// An inline box as a value.
pub struct InlineBoxView {
    pub content: InlineBoxContentView,
    pub width: Length,
    pub linespacing: Length,
    pub font: Font,
    pub color: RGBA,
}

impl View for InlineBox {
    type V = InlineBoxView;

    open spec fn view(&self) -> InlineBoxView {
        InlineBoxView {
            content: match self.content {
                InlineBoxContent::Space => InlineBoxContentView::Space,
                InlineBoxContent::Linebreak => InlineBoxContentView::Linebreak,
                InlineBoxContent::Text(word) => InlineBoxContentView::Text(word@),
            },
            width: self.width,
            linespacing: self.linespacing,
            font: self.font,
            color: self.color,
        }
    }
}

/// The boxes of `boxes` as values, in order.
pub open spec fn spec_box_views(boxes: Seq<InlineBox>) -> Seq<InlineBoxView> {
    Seq::new(boxes.len(), |i: int| boxes[i]@)
}

/// The distance from line to line in `font`: 1.2 font sizes.
pub open spec fn spec_linespacing(font: Font) -> Length {
    font.0.size.spec_scale(1200)
}

/// The box of a space in `font`.
pub open spec fn spec_space_box(font: Font) -> InlineBoxView {
    InlineBoxView {
        content: InlineBoxContentView::Space,
        width: font.0.space_advance_width,
        linespacing: spec_linespacing(font),
        font,
        color: RGBA(0, 0, 0, 0),
    }
}

/// The box of a line break in `font`.
pub open spec fn spec_newline_box(font: Font) -> InlineBoxView {
    InlineBoxView {
        content: InlineBoxContentView::Linebreak,
        width: Length::spec_zero(),
        linespacing: spec_linespacing(font),
        font,
        color: RGBA(0, 0, 0, 0),
    }
}

/// The box of `word` in `font` and `color`.
pub open spec fn spec_word_box(word: Seq<char>, font: Font, color: RGBA) -> InlineBoxView {
    InlineBoxView {
        content: InlineBoxContentView::Text(word),
        width: match spec_text_width(font.0.advances@, word) {
            Some(width) => width,
            None => Length::spec_zero(),
        },
        linespacing: spec_linespacing(font),
        font,
        color,
    }
}

/// A space is added unless the row is empty or ends in a space or a line
/// break.
pub open spec fn spec_maybe_add_space(boxes: Seq<InlineBoxView>, font: Font) -> Seq<InlineBoxView> {
    if boxes.len() > 0 && boxes.last().content is Text {
        boxes.push(spec_space_box(font))
    } else {
        boxes
    }
}

/// A space at the end of the row is removed.
pub open spec fn spec_maybe_remove_space(boxes: Seq<InlineBoxView>) -> Seq<InlineBoxView> {
    if boxes.len() > 0 && boxes.last().content is Space {
        boxes.drop_last()
    } else {
        boxes
    }
}

/// A line break replaces a space at the end of the row.
pub open spec fn spec_add_newline(boxes: Seq<InlineBoxView>, font: Font) -> Seq<InlineBoxView> {
    spec_maybe_remove_space(boxes).push(spec_newline_box(font))
}

pub open spec fn spec_is_ascii_whitespace(c: char) -> bool {
    c == ' ' || c == '\t' || c == '\n' || c == '\x0C' || c == '\r'
}

/// The first place at or after `pos` that holds no white space, or the end
/// of the text.
pub open spec fn spec_skip_whitespace(text: Seq<char>, pos: int) -> int
    decreases text.len() - pos,
{
    if pos < 0 || pos >= text.len() {
        text.len() as int
    } else if spec_is_ascii_whitespace(text[pos]) {
        spec_skip_whitespace(text, pos + 1)
    } else {
        pos
    }
}

/// The first place at or after `pos` that holds white space, or the end of
/// the text.
pub open spec fn spec_word_end(text: Seq<char>, pos: int) -> int
    decreases text.len() - pos,
{
    if pos < 0 || pos >= text.len() {
        text.len() as int
    } else if spec_is_ascii_whitespace(text[pos]) {
        pos
    } else {
        spec_word_end(text, pos + 1)
    }
}

/// The row after the words of `text` from `pos` on are added, each followed
/// by a space. Words are what white space separates.
pub open spec fn spec_add_words(
    boxes: Seq<InlineBoxView>,
    text: Seq<char>,
    pos: int,
    font: Font,
    color: RGBA,
) -> Seq<InlineBoxView>
    decreases text.len() - pos,
{
    let start = spec_skip_whitespace(text, pos);
    let end = spec_word_end(text, start);
    if pos < 0 || start < pos || start >= text.len() || end <= start || end > text.len() {
        boxes
    } else {
        spec_add_words(
            boxes.push(spec_word_box(text.subrange(start, end), font, color)).push(
                spec_space_box(font),
            ),
            text,
            end,
            font,
            color,
        )
    }
}

/// The row after `text` is added: its words with a space between each two.
/// White space at the start of the text gives a space before the first word,
/// unless the row is empty or ends in a space or a line break; white space at
/// the end gives a space after the last word.
pub open spec fn spec_make_text_boxes(
    boxes: Seq<InlineBoxView>,
    text: Seq<char>,
    font: Font,
    color: RGBA,
) -> Seq<InlineBoxView> {
    let started = if text.len() > 0 && spec_is_ascii_whitespace(text[0]) {
        spec_maybe_add_space(boxes, font)
    } else {
        boxes
    };
    let filled = spec_add_words(started, text, 0, font, color);
    if text.len() > 0 && spec_is_ascii_whitespace(text.last()) {
        filled
    } else {
        spec_maybe_remove_space(filled)
    }
}

/// Whether `font` has every glyph of the words of `text`.
pub open spec fn spec_words_measurable(text: Seq<char>, font: Font) -> bool {
    forall|i: int|
        0 <= i < text.len() && !spec_is_ascii_whitespace(text[i]) ==> spec_advance(
            font.0.advances@,
            #[trigger] text[i],
        ) is Some
}

pub proof fn lemma_skip_whitespace(text: Seq<char>, pos: int)
    requires
        0 <= pos <= text.len(),
    ensures
        pos <= spec_skip_whitespace(text, pos) <= text.len(),
        spec_skip_whitespace(text, pos) < text.len() ==> !spec_is_ascii_whitespace(
            text[spec_skip_whitespace(text, pos)],
        ),
    decreases text.len() - pos,
{
    if pos < text.len() && spec_is_ascii_whitespace(text[pos]) {
        lemma_skip_whitespace(text, pos + 1);
    }
}

pub proof fn lemma_word_end(text: Seq<char>, pos: int)
    requires
        0 <= pos <= text.len(),
    ensures
        pos <= spec_word_end(text, pos) <= text.len(),
        forall|i: int| pos <= i < spec_word_end(text, pos) ==> !spec_is_ascii_whitespace(text[i]),
        pos < text.len() && !spec_is_ascii_whitespace(text[pos]) ==> pos < spec_word_end(text, pos),
    decreases text.len() - pos,
{
    if pos < text.len() && !spec_is_ascii_whitespace(text[pos]) {
        lemma_word_end(text, pos + 1);
    }
}

pub fn is_ascii_whitespace(c: char) -> (r: bool)
    ensures
        r == spec_is_ascii_whitespace(c),
{
    c == ' ' || c == '\t' || c == '\n' || c == '\x0C' || c == '\r'
}

fn push_box(boxes: &mut Vec<InlineBox>, added: InlineBox)
    ensures
        spec_box_views(final(boxes)@) == spec_box_views(old(boxes)@).push(added@),
{
    boxes.push(added);
    assert(spec_box_views(boxes@) =~= spec_box_views(old(boxes)@).push(added@));
}

/// Adds a space.
pub fn add_space(boxes: &mut Vec<InlineBox>, font: &Font)
    ensures
        spec_box_views(final(boxes)@) == spec_box_views(old(boxes)@).push(spec_space_box(*font)),
{
    let b = InlineBox {
        content: InlineBoxContent::Space,
        width: font.0.get_space_advance_width(),
        linespacing: font.0.calculate_linespacing(Number { thousandths: 1200 }),
        font: font.share(),
        color: RGBA(0, 0, 0, 0),
    };
    push_box(boxes, b);
}

/// Adds a space unless the row ends in one. Never adds one to an empty row
/// or after a line break.
pub fn maybe_add_space(boxes: &mut Vec<InlineBox>, font: &Font)
    ensures
        spec_box_views(final(boxes)@) == spec_maybe_add_space(spec_box_views(old(boxes)@), *font),
{
    let n = boxes.len();
    if n > 0 {
        let wanted = match boxes[n - 1].content {
            InlineBoxContent::Space => false,
            InlineBoxContent::Linebreak => false,
            _ => true,
        };
        assert(spec_box_views(boxes@).last() == boxes@[n - 1]@);
        if wanted {
            add_space(boxes, font);
        }
    }
}

/// Removes the last box if it is a space.
pub fn maybe_remove_space(boxes: &mut Vec<InlineBox>)
    ensures
        spec_box_views(final(boxes)@) == spec_maybe_remove_space(spec_box_views(old(boxes)@)),
{
    let n = boxes.len();
    if n > 0 {
        assert(spec_box_views(boxes@).last() == boxes@[n - 1]@);
        if let InlineBoxContent::Space = boxes[n - 1].content {
            boxes.pop();
            assert(spec_box_views(boxes@) =~= spec_box_views(old(boxes)@).drop_last());
        }
    }
}

/// Adds a line break, in place of a space at the end of the row if there
/// is one.
pub fn add_newline(boxes: &mut Vec<InlineBox>, font: &Font)
    ensures
        spec_box_views(final(boxes)@) == spec_add_newline(spec_box_views(old(boxes)@), *font),
{
    maybe_remove_space(boxes);
    let b = InlineBox {
        content: InlineBoxContent::Linebreak,
        width: Length::zero(),
        linespacing: font.0.calculate_linespacing(Number { thousandths: 1200 }),
        font: font.share(),
        color: RGBA(0, 0, 0, 0),
    };
    push_box(boxes, b);
}

/// Whether `font` has every glyph of the words of `text`.
pub fn words_measurable(text: &Vec<char>, font: &Font) -> (r: bool)
    ensures
        r == spec_words_measurable(text@, *font),
{
    let mut i: usize = 0;
    while i < text.len()
        invariant
            i <= text@.len(),
            forall|k: int|
                0 <= k < i && !spec_is_ascii_whitespace(text@[k]) ==> spec_advance(
                    font.0.advances@,
                    #[trigger] text@[k],
                ) is Some,
        decreases text@.len() - i,
    {
        let ch = text[i];
        if !is_ascii_whitespace(ch) && lookup_advance(&font.0.advances, ch).is_none() {
            return false;
        }
        i += 1;
    }
    true
}

/// Adds the words of `text` to the row, in `font` and `color`, with a
/// space between each two. Fails, and adds nothing, where the font lacks a
/// glyph of one of the words.
pub fn make_text_boxes(boxes: &mut Vec<InlineBox>, text: &str, font: &Font, color: RGBA) -> (r:
    Result<(), FontError>)
    ensures
        spec_words_measurable(text@, *font) ==> r is Ok && spec_box_views(final(boxes)@)
            == spec_make_text_boxes(spec_box_views(old(boxes)@), text@, *font, color),
        !spec_words_measurable(text@, *font) ==> r == Err::<(), FontError>(
            FontError::GeneralError,
        ) && final(boxes)@ == old(boxes)@,
{
    let chars = to_chars(text);
    if !words_measurable(&chars, font) {
        return Err(FontError::GeneralError);
    }
    let len = chars.len();
    // White space before the first word.
    if len > 0 && is_ascii_whitespace(chars[0]) {
        maybe_add_space(boxes, font);
    }
    let ghost started = spec_box_views(boxes@);
    let mut pos: usize = 0;
    let mut done = false;
    while !done
        invariant
            len == chars@.len(),
            chars@ == text@,
            pos <= len,
            spec_words_measurable(text@, *font),
            spec_add_words(spec_box_views(boxes@), chars@, pos as int, *font, color)
                == spec_add_words(started, chars@, 0, *font, color),
            done ==> spec_add_words(spec_box_views(boxes@), chars@, pos as int, *font, color)
                == spec_box_views(boxes@),
        decreases len - pos, (if done { 0int } else { 1int }),
    {
        proof {
            lemma_skip_whitespace(chars@, pos as int);
        }
        let mut start: usize = pos;
        while start < len && is_ascii_whitespace(chars[start])
            invariant
                len == chars@.len(),
                pos <= start <= len,
                spec_skip_whitespace(chars@, start as int) == spec_skip_whitespace(
                    chars@,
                    pos as int,
                ),
            decreases len - start,
        {
            start += 1;
        }
        if start >= len {
            done = true;
        } else {
            proof {
                lemma_word_end(chars@, start as int);
                assert(chars@.subrange(start as int, start as int) =~= Seq::<char>::empty());
            }
            let mut word: Vec<char> = Vec::new();
            let mut end: usize = start;
            while end < len && !is_ascii_whitespace(chars[end])
                invariant
                    len == chars@.len(),
                    start <= end <= len,
                    word@ == chars@.subrange(start as int, end as int),
                    spec_word_end(chars@, end as int) == spec_word_end(chars@, start as int),
                decreases len - end,
            {
                word.push(chars[end]);
                proof {
                    assert(chars@.subrange(start as int, end as int).push(chars@[end as int])
                        =~= chars@.subrange(start as int, end + 1));
                }
                end += 1;
            }
            proof {
                assert forall|i: int| 0 <= i < word@.len() implies spec_advance(
                    font.0.advances@,
                    #[trigger] word@[i],
                ) is Some by {
                    assert(word@[i] == chars@[start + i]);
                }
                lemma_width_exists_iff_covered(font.0.advances@, word@);
            }
            let metrics = font.string_metrics(&word).unwrap();
            let b = InlineBox {
                content: InlineBoxContent::Text(word),
                width: metrics.width,
                linespacing: font.0.calculate_linespacing(Number { thousandths: 1200 }),
                font: font.share(),
                color,
            };
            push_box(boxes, b);
            add_space(boxes, font);
            pos = end;
        }
    }
    // No white space after the last word: no space after it either.
    if !(len > 0 && is_ascii_whitespace(chars[len - 1])) {
        maybe_remove_space(boxes);
    }
    Ok(())
}

/// Where the first line of a row of inline boxes starts on the page: 0.2
/// inches from the left and 2 inches from the top.
pub open spec fn spec_row_origin() -> (Length, Length) {
    (Length { units: 1228 }, Length { units: 12288 })
}

/// The draw calls for the boxes from index `from` on, where the pen stands
/// at (`x`, `y`) from the origin of the row: a word is drawn where the pen
/// stands and moves it on by its width, a space moves it on, and a line break
/// takes it back to the start, one line further down.
pub open spec fn spec_render_inline_boxes(
    boxes: Seq<InlineBoxView>,
    from: int,
    x: Length,
    y: Length,
) -> Seq<DrawCommandView>
    decreases boxes.len() - from,
{
    if from < 0 || from >= boxes.len() {
        Seq::empty()
    } else {
        let b = boxes[from];
        match b.content {
            InlineBoxContentView::Space => spec_render_inline_boxes(
                boxes,
                from + 1,
                x.plus(b.width),
                y,
            ),
            InlineBoxContentView::Linebreak => spec_render_inline_boxes(
                boxes,
                from + 1,
                Length::spec_zero(),
                y.plus(b.linespacing),
            ),
            InlineBoxContentView::Text(word) => seq![
                DrawCommandView::Text {
                    label: word,
                    x: spec_row_origin().0.plus(x),
                    y: spec_row_origin().1.plus(y),
                    gc: spec_text_context(b.font, b.color),
                },
            ] + spec_render_inline_boxes(boxes, from + 1, x.plus(b.width), y),
        }
    }
}

/// Draws the row of boxes onto `rdev`.
pub fn render_inline_boxes(inline_boxes: &Vec<InlineBox>, rdev: &mut RenderDevice)
    ensures
        final(rdev)@ == old(rdev)@ + spec_render_inline_boxes(
            spec_box_views(inline_boxes@),
            0,
            Length::spec_zero(),
            Length::spec_zero(),
        ),
{
    let x0 = Length::new(1228);
    let y0 = Length::from_px(192);
    let mut x = Length::zero();
    let mut y = Length::zero();
    let ghost views = spec_box_views(inline_boxes@);
    let mut i: usize = 0;
    while i < inline_boxes.len()
        invariant
            i <= inline_boxes.len(),
            views == spec_box_views(inline_boxes@),
            x0 == spec_row_origin().0,
            y0 == spec_row_origin().1,
            rdev@ + spec_render_inline_boxes(views, i as int, x, y) == old(rdev)@
                + spec_render_inline_boxes(views, 0, Length::spec_zero(), Length::spec_zero()),
        decreases inline_boxes.len() - i,
    {
        let b = &inline_boxes[i];
        let ghost before = rdev@;
        assert(views[i as int] == b@);
        match &b.content {
            InlineBoxContent::Space => {
                x = x + b.width;
            },
            InlineBoxContent::Linebreak => {
                x = Length::zero();
                y = y + b.linespacing;
            },
            InlineBoxContent::Text(word) => {
                let ghost pen = x;
                rdev.draw_text(word, x0 + x, y0 + y, &b.font, b.color);
                x = x + b.width;
                proof {
                    let here = seq![
                        DrawCommandView::Text {
                            label: word@,
                            x: spec_row_origin().0.plus(pen),
                            y: spec_row_origin().1.plus(y),
                            gc: spec_text_context(b.font, b.color),
                        },
                    ];
                    let rest = spec_render_inline_boxes(views, i + 1, x, y);
                    assert(rdev@ =~= before + here);
                    assert((before + here) + rest =~= before + (here + rest));
                }
            },
        }
        i += 1;
    }
    assert(rdev@ + Seq::<DrawCommandView>::empty() =~= rdev@);
}

/// The context that draws text of `style`: `gc` with the color of the
/// style, its font style and weight added to the face, its font size, and its
/// family under the name by which the device knows it.
pub open spec fn spec_apply_style_attributes(style: &ComputedValues, gc: GContextView)
    -> GContextView {
    let slanted = if style.font.font_style == FontStyle::Normal {
        gc.fontface
    } else {
        gc.fontface.spec_with_italics()
    };
    GContextView {
        color: style.color.color,
        fontface: if style.font.font_weight == FontWeight::Bold {
            slanted.spec_with_bold()
        } else {
            slanted
        },
        fontsize: style.font.font_size.0,
        fontfamily: spec_family_name(style.font.font_family),
        ..gc
    }
}

pub fn apply_style_attributes(style: &ComputedValues, gc: &GContextImpl) -> (r: GContextImpl)
    ensures
        r@ == spec_apply_style_attributes(style, gc@),
{
    let mut gc_new = gc.copy();
    gc_new.set_color(style.color.color);
    gc_new.set_fontstyle(style.font.font_style);
    gc_new.set_fontweight(style.font.font_weight);
    gc_new.set_fontsize(style.font.font_size.0);
    let family = family_name(&style.font.font_family);
    gc_new.set_fontfamily(family);
    gc_new
}

/// What the layout of a document works on.
pub struct LayoutContext<'a> {
    pub document: &'a Document,
}

/// Whether the fonts of the text nodes in `node` and below have every
/// glyph of their words.
pub open spec fn spec_node_measurable(node: Node) -> bool
    decreases node, 0int,
{
    &&& node.data matches NodeData::Text { contents } ==> spec_words_measurable(
        contents@,
        node.font,
    )
    &&& spec_nodes_measurable(node.children@, 0)
}

/// Whether the nodes from index `from` on are measurable.
pub open spec fn spec_nodes_measurable(nodes: Seq<Node>, from: int) -> bool
    decreases nodes, nodes.len() - from,
{
    if from < 0 || from >= nodes.len() {
        true
    } else {
        spec_node_measurable(nodes[from]) && spec_nodes_measurable(nodes, from + 1)
    }
}

/// The row after `node` and what is below it are added, in document order:
/// a `br` element adds a line break, a text adds its words in the color of its
/// style; everything else adds only what its children add.
pub open spec fn spec_process_node(boxes: Seq<InlineBoxView>, node: Node) -> Seq<InlineBoxView>
    decreases node, 0int,
{
    let own = match node.data {
        NodeData::Element { name } => if name@ == "br"@ {
            spec_add_newline(boxes, node.font)
        } else {
            boxes
        },
        NodeData::Text { contents } => spec_make_text_boxes(
            boxes,
            contents@,
            node.font,
            node.style.color.color,
        ),
        NodeData::Other => boxes,
    };
    spec_process_nodes(own, node.children@, 0)
}

/// The row after the nodes from index `from` on are added.
pub open spec fn spec_process_nodes(boxes: Seq<InlineBoxView>, nodes: Seq<Node>, from: int) -> Seq<
    InlineBoxView,
>
    decreases nodes, nodes.len() - from,
{
    if from < 0 || from >= nodes.len() {
        boxes
    } else {
        spec_process_nodes(spec_process_node(boxes, nodes[from]), nodes, from + 1)
    }
}

/// Whether the fonts of the text nodes in `node` and below have every
/// glyph of their words.
pub fn node_measurable(node: &Node) -> (r: bool)
    ensures
        r == spec_node_measurable(*node),
    decreases node,
{
    if let NodeData::Text { contents } = &node.data {
        let chars = to_chars(contents.as_str());
        if !words_measurable(&chars, &node.font) {
            return false;
        }
    }
    let mut i: usize = 0;
    while i < node.children.len()
        invariant
            i <= node.children.len(),
            decreases_to!(node => node.children),
            spec_nodes_measurable(node.children@, 0) == spec_nodes_measurable(
                node.children@,
                i as int,
            ),
        decreases node.children.len() - i,
    {
        assert(decreases_to!(node.children => node.children[i as int]));
        if !node_measurable(&node.children[i]) {
            return false;
        }
        i += 1;
    }
    true
}

/// Adds `node` and what is below it to the row.
fn process_measurable_node(boxes: &mut Vec<InlineBox>, node: &Node)
    requires
        spec_node_measurable(*node),
    ensures
        spec_box_views(final(boxes)@) == spec_process_node(spec_box_views(old(boxes)@), *node),
    decreases node,
{
    match &node.data {
        NodeData::Element { name } => {
            let br = String::from_str("br");
            if *name == br {
                add_newline(boxes, &node.font);
            }
        },
        NodeData::Text { contents } => {
            make_text_boxes(boxes, contents.as_str(), &node.font, node.style.color.color).unwrap();
        },
        NodeData::Other => {},
    }
    let ghost own = spec_box_views(boxes@);
    let mut i: usize = 0;
    while i < node.children.len()
        invariant
            i <= node.children.len(),
            decreases_to!(node => node.children),
            spec_nodes_measurable(node.children@, i as int),
            spec_process_nodes(spec_box_views(boxes@), node.children@, i as int)
                == spec_process_nodes(own, node.children@, 0),
        decreases node.children.len() - i,
    {
        assert(decreases_to!(node.children => node.children[i as int]));
        process_measurable_node(boxes, &node.children[i]);
        i += 1;
    }
}

/// Adds `node` and what is below it to the row. Fails, and adds nothing,
/// where a font lacks a glyph of a text.
pub fn process_node(boxes: &mut Vec<InlineBox>, node: &Node) -> (r: Result<(), FontError>)
    ensures
        spec_node_measurable(*node) ==> r is Ok && spec_box_views(final(boxes)@)
            == spec_process_node(spec_box_views(old(boxes)@), *node),
        !spec_node_measurable(*node) ==> r == Err::<(), FontError>(FontError::GeneralError)
            && final(boxes)@ == old(boxes)@,
{
    if !node_measurable(node) {
        return Err(FontError::GeneralError);
    }
    process_measurable_node(boxes, node);
    Ok(())
}

/// Lays the document out as one row of words, spaces and line breaks and
/// draws it onto `rdev`. Fails, and draws nothing, where a font lacks a glyph
/// of a text.
pub fn render_html(context: &LayoutContext, rdev: &mut RenderDevice) -> (r: Result<(), FontError>)
    ensures
        r is Ok <==> spec_node_measurable(context.document.root),
        r is Ok ==> final(rdev)@ == old(rdev)@ + spec_render_inline_boxes(
            spec_process_node(Seq::empty(), context.document.root),
            0,
            Length::spec_zero(),
            Length::spec_zero(),
        ),
        r is Err ==> r->Err_0 == FontError::GeneralError && final(rdev)@ == old(rdev)@,
{
    let mut inline_boxes: Vec<InlineBox> = Vec::new();
    assert(spec_box_views(inline_boxes@) =~= Seq::<InlineBoxView>::empty());
    match process_node(&mut inline_boxes, &context.document.root) {
        Ok(()) => {},
        Err(e) => {
            return Err(e);
        },
    }
    render_inline_boxes(&inline_boxes, rdev);
    Ok(())
}

} // verus!
