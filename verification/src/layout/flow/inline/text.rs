//! Text runs in the inline formatting context: scanning for line breaks,
//! and laying text out with and without word wrap.

use vstd::prelude::*;

use crate::geom::flow_relative::Rect;
use crate::geom::flow_relative::Vec2;
use crate::graphics_engine::font::Font;
use crate::graphics_engine::font::lemma_width_exists_iff_covered;
use crate::graphics_engine::font::lookup_advance;
use crate::graphics_engine::font::spec_advance;
use crate::graphics_engine::font::spec_text_width;
use crate::graphics_engine::shaped_segment::ShapedSegment;
use crate::graphics_engine::shaped_segment::ShapedSegmentState;
use crate::graphics_engine::shaped_segment::ShapedSegmentView;
use crate::graphics_engine::shaped_segment::spec_strip_space;
use crate::layout::flow::inline::InlineFormattingContextState;
use crate::layout::flow::inline::LevelView;
use crate::layout::flow::inline::StateView;
use crate::layout::flow::inline::TextRun;
use crate::layout::fragments::Fragment;
use crate::layout::fragments::FragmentView;
use crate::layout::fragments::lemma_views_push;
use crate::layout::fragments::TextFragment;
use crate::layout::fragments::TextFragmentView;
use crate::style::properties::ComputedValues;
use crate::style::values::length::Length;
use crate::utils::share_arc;

verus! {

/// The line height that `style` asks for: its `line-height`, a percentage
/// or a number taken of the font size.
pub open spec fn spec_line_height(style: &ComputedValues) -> Length {
    style.line_inherited.line_height.spec_percentage_or_number_relative_to(style.font.font_size.0)
}

/// The ascent and the descent of a line of text of `style` in `font`: those
/// of the font, each with half the leading, which is what the line height
/// exceeds the font's ascent and descent by.
pub open spec fn spec_line_ascent_descent(style: &ComputedValues, font: &Font) -> (Length, Length) {
    let leading = spec_line_height(style).minus(font.0.ascent.plus(font.0.descent));
    (font.0.ascent.plus(leading.spec_half()), font.0.descent.plus(leading.spec_half()))
}

pub fn calculate_line_ascent_descent(style: &ComputedValues, font: &Font) -> (r: (Length, Length))
    ensures
        r == spec_line_ascent_descent(style, font),
{
    let line_height = style.line_inherited.line_height.percentage_or_number_relative_to(
        style.font.font_size.0,
    );
    let font_ascent = font.get_ascent();
    let font_descent = font.get_descent();
    let leading = line_height - (font_ascent + font_descent);
    (font_ascent + leading.half(), font_descent + leading.half())
}

/// The width of `glyphs` by `font`; zero where the font cannot measure them.
pub open spec fn spec_width_of(font: &Font, glyphs: Seq<char>) -> Length {
    match spec_text_width(font.0.advances@, glyphs) {
        Some(width) => width,
        None => Length::spec_zero(),
    }
}

impl TextRun {
    /// Whether the font of the run has every glyph of the text. Newline
    /// characters are no glyphs: they end lines.
    pub open spec fn spec_measurable(&self) -> bool {
        forall|i: int|
            0 <= i < self.text@.len() && self.text@[i] != '\n' ==> spec_advance(
                self.font.0.advances@,
                #[trigger] self.text@[i],
            ) is Some
    }

    /// The state after a text fragment of `glyphs` is placed at the end of
    /// the current line: the line is longer by the width of the glyphs, and the
    /// current level covers the ascent and descent of the text above and below
    /// the baseline of the line. No glyphs, no fragment.
    pub open spec fn spec_place(&self, s: StateView, glyphs: Seq<char>) -> StateView {
        if glyphs.len() == 0 {
            s
        } else {
            let width = spec_width_of(&self.font, glyphs);
            let (ascent, descent) = spec_line_ascent_descent(&*self.parent_style, &self.font);
            let current = s.current();
            let fragment = FragmentView::Text(
                TextFragmentView {
                    parent_style: self.parent_style,
                    content_rect: Rect {
                        start_corner: Vec2 {
                            block: Length::spec_zero(),
                            inline: s.inline_position.minus(current.inline_start),
                        },
                        size: Vec2 { block: ascent.plus(descent), inline: width },
                    },
                    text: ShapedSegmentView {
                        font: self.font,
                        glyphs,
                        advance_width: Some(width),
                    },
                },
            );
            StateView {
                inline_position: s.inline_position.plus(width),
                levels: s.levels.update(
                    s.levels.len() - 1,
                    LevelView {
                        fragments: current.fragments.push(fragment),
                        max_block_ascent: current.max_block_ascent.spec_max(
                            ascent.minus(current.block_baseline_adjustment),
                        ),
                        max_block_descent: current.max_block_descent.spec_max(
                            descent.plus(current.block_baseline_adjustment),
                        ),
                        ..current
                    },
                ),
                ..s
            }
        }
    }

    /// Places `shaped`, whose width is `inline_size`, at the end of the
    /// current line, unless it is empty.
    pub fn place(&self, ifc: &mut InlineFormattingContextState, shaped: ShapedSegment, inline_size: Length)
        requires
            old(ifc).wf(),
            shaped.font == self.font,
            shaped.advance_width == Some(inline_size),
            spec_text_width(self.font.0.advances@, shaped.glyphs@) == Some(inline_size),
        ensures
            final(ifc)@ == self.spec_place(old(ifc)@, shaped.glyphs@),
            final(ifc).wf(),
            old(ifc)@.lines_consistent() ==> final(ifc)@.lines_consistent(),
            final(ifc).partial_inline_boxes_stack@.len() == old(ifc).partial_inline_boxes_stack@.len(),
    {
        let line_ascent_descent = calculate_line_ascent_descent(&*self.parent_style, &self.font);
        let top: usize = ifc.levels.len() - 1;
        let content_rect = Rect {
            start_corner: Vec2 {
                block: Length::zero(),
                inline: ifc.inline_position - ifc.levels[top].inline_start,
            },
            size: Vec2 {
                block: line_ascent_descent.0 + line_ascent_descent.1,
                inline: inline_size,
            },
        };
        if !shaped.empty() {
            let ghost before = ifc@;
            ifc.inline_position = ifc.inline_position + inline_size;
            let adjustment = ifc.levels[top].block_baseline_adjustment;
            ifc.levels[top].max_block_ascent_of_fragments_so_far.max_assign(
                line_ascent_descent.0 - adjustment,
            );
            ifc.levels[top].max_block_descent_of_fragments_so_far.max_assign(
                line_ascent_descent.1 + adjustment,
            );
            let fragment = Fragment::Text(
                TextFragment { parent_style: share_arc(&self.parent_style), content_rect, text: shaped },
            );
            proof {
                lemma_views_push(ifc.levels[top as int].fragments_so_far@, fragment);
            }
            ifc.levels[top].fragments_so_far.push(fragment);
            proof {
                assert(ifc@.levels =~= self.spec_place(before, shaped.glyphs@).levels);
            }
        }
    }
}

/// One line's worth of a text run: the glyphs from where the scan started
/// up to `end` go on the line, the scan goes on at `next`, and `newline` tells
/// whether a newline character ended the line.
pub struct WrapLine {
    pub end: int,
    pub next: int,
    pub newline: bool,
}

/// Whether a line may break at `pos`: at a space, at a newline and at the
/// end of the text.
pub open spec fn spec_is_break(text: Seq<char>, pos: int) -> bool {
    pos >= text.len() || text[pos] == ' ' || text[pos] == '\n'
}

/// Whether the glyphs from `start` up to `pos` are wider than `available`.
pub open spec fn spec_overflows(
    font: &Font,
    text: Seq<char>,
    start: int,
    pos: int,
    available: Length,
) -> bool {
    spec_width_of(font, text.subrange(start, pos))@ > available@
}

/// Scans on at `pos` for the end of the line that started at `start`.
///
/// At each place where a line may break, the glyphs so far are held against
/// the available width. Where they are wider, the line ends at the last break
/// that was passed; where none was passed, it ends here all the same, with a
/// segment that is too wide, and a newline that stands here still counts as
/// one. A newline ends the line, less the spaces before it. `last_break` is the last break that was passed: where the line would
/// end, and where the scan would go on.
pub open spec fn spec_scan(
    font: &Font,
    text: Seq<char>,
    available: Length,
    start: int,
    pos: int,
    last_break: Option<(int, int)>,
) -> WrapLine
    decreases text.len() - pos,
{
    if pos < start || start < 0 {
        WrapLine { end: start, next: start, newline: false }
    } else if spec_is_break(text, pos) && spec_overflows(font, text, start, pos, available) {
        match last_break {
            Some((end, next)) => WrapLine { end, next, newline: false },
            None => WrapLine {
                end: pos,
                next: if pos < text.len() {
                    pos + 1
                } else {
                    pos
                },
                newline: pos < text.len() && text[pos] == '\n',
            },
        }
    } else if pos >= text.len() {
        WrapLine { end: pos, next: pos, newline: false }
    } else if text[pos] == '\n' {
        WrapLine {
            end: start + spec_strip_space(text.subrange(start, pos)).len(),
            next: pos + 1,
            newline: true,
        }
    } else {
        spec_scan(
            font,
            text,
            available,
            start,
            pos + 1,
            if text[pos] == ' ' {
                Some((pos, pos + 1))
            } else {
                last_break
            },
        )
    }
}

/// What is left of `glyphs` without the spaces at its end is its beginning.
pub proof fn lemma_strip_space_is_prefix(glyphs: Seq<char>)
    ensures
        spec_strip_space(glyphs).len() <= glyphs.len(),
        spec_strip_space(glyphs) == glyphs.take(spec_strip_space(glyphs).len() as int),
    decreases glyphs.len(),
{
    if glyphs.len() > 0 && glyphs.last() == ' ' {
        lemma_strip_space_is_prefix(glyphs.drop_last());
        let n = spec_strip_space(glyphs).len() as int;
        assert(glyphs.drop_last().take(n) =~= glyphs.take(n));
    } else {
        assert(glyphs.take(glyphs.len() as int) =~= glyphs);
    }
}

/// A scan ends the line at or after its start and goes on at or after the
/// end. It goes on past the start unless the text is used up, or unless a
/// break at the start itself was offered (`lazy`).
pub proof fn lemma_scan_bounds(
    font: &Font,
    text: Seq<char>,
    available: Length,
    start: int,
    pos: int,
    last_break: Option<(int, int)>,
    lazy: bool,
)
    requires
        0 <= start <= pos <= text.len(),
        last_break matches Some((end, next)) ==> start <= end <= next <= pos && (next > start
            || lazy),
    ensures
        ({
            let line = spec_scan(font, text, available, start, pos, last_break);
            &&& start <= line.end <= line.next <= text.len()
            &&& line.next > start || lazy || (line.next >= text.len() && !line.newline)
        }),
    decreases text.len() - pos,
{
    if spec_is_break(text, pos) && spec_overflows(font, text, start, pos, available) {
    } else if pos >= text.len() {
    } else if text[pos] == '\n' {
        lemma_strip_space_is_prefix(text.subrange(start, pos));
    } else {
        lemma_scan_bounds(
            font,
            text,
            available,
            start,
            pos + 1,
            if text[pos] == ' ' {
                Some((pos, pos + 1))
            } else {
                last_break
            },
            lazy,
        );
    }
}

/// The first newline at or after `pos`, or the end of the text.
pub open spec fn spec_line_end(text: Seq<char>, pos: int) -> int
    decreases text.len() - pos,
{
    if pos < 0 || pos >= text.len() {
        text.len() as int
    } else if text[pos] == '\n' {
        pos
    } else {
        spec_line_end(text, pos + 1)
    }
}

/// The number of newline characters at or after `pos`.
pub open spec fn spec_count_newlines(text: Seq<char>, pos: int) -> nat
    decreases text.len() - pos,
{
    if pos < 0 || pos >= text.len() {
        0
    } else if text[pos] == '\n' {
        1 + spec_count_newlines(text, pos + 1)
    } else {
        spec_count_newlines(text, pos + 1)
    }
}

/// The end of a line lies at or after its start, at a newline or at the end
/// of the text, with no newline before it; and as many newlines follow the
/// start as follow the end.
pub proof fn lemma_line_end(text: Seq<char>, pos: int)
    requires
        0 <= pos <= text.len(),
    ensures
        pos <= spec_line_end(text, pos) <= text.len(),
        spec_line_end(text, pos) < text.len() ==> text[spec_line_end(text, pos)] == '\n',
        forall|i: int| pos <= i < spec_line_end(text, pos) ==> text[i] != '\n',
        spec_count_newlines(text, pos) == spec_count_newlines(text, spec_line_end(text, pos)),
    decreases text.len() - pos,
{
    if pos < text.len() && text[pos] != '\n' {
        lemma_line_end(text, pos + 1);
    }
}

impl TextRun {
    /// A text whose glyphs the font has can be measured between any two
    /// places with no newline in between.
    pub proof fn lemma_measurable_range(&self, start: int, pos: int)
        requires
            self.spec_measurable(),
            0 <= start <= pos <= self.text@.len(),
            forall|i: int| start <= i < pos ==> self.text@[i] != '\n',
        ensures
            spec_text_width(self.font.0.advances@, self.text@.subrange(start, pos)) is Some,
    {
        let range = self.text@.subrange(start, pos);
        assert forall|i: int| 0 <= i < range.len() implies spec_advance(
            self.font.0.advances@,
            #[trigger] range[i],
        ) is Some by {
            assert(range[i] == self.text@[start + i]);
        }
        lemma_width_exists_iff_covered(self.font.0.advances@, range);
    }

    /// Shapes one line's worth of the text from `start` on, for a line that
    /// has `available` left. `break_before` offers a break before the first
    /// glyph: where the first word does not fit, the line ends empty and the
    /// word waits for the next line.
    ///
    /// Returns the shaped glyphs, where to go on, and whether a newline ended
    /// the line.
    pub fn scan_line(&self, start: usize, available: Length, break_before: bool) -> (r: (
        ShapedSegment,
        usize,
        bool,
    ))
        requires
            self.spec_measurable(),
            start <= self.text@.len(),
        ensures
            ({
                let line = spec_scan(
                    &self.font,
                    self.text@,
                    available,
                    start as int,
                    start as int,
                    if break_before {
                        Some((start as int, start as int))
                    } else {
                        None
                    },
                );
                &&& r.0.font == self.font
                &&& r.0.glyphs@ == self.text@.subrange(start as int, line.end)
                &&& r.0@.wf()
                &&& r.1 == line.next
                &&& r.2 == line.newline
                &&& start <= line.end <= line.next <= self.text@.len()
                &&& line.next > start || break_before || (line.next >= self.text@.len()
                    && !line.newline)
                &&& spec_text_width(self.font.0.advances@, r.0.glyphs@) is Some
            }),
    {
        let len = self.text.len();
        let mut pos: usize = start;
        let mut shaped = ShapedSegment::new(self.font.share());
        let mut last_break_opportunity: Option<(ShapedSegmentState, usize)> = if break_before {
            Some((shaped.save(), pos))
        } else {
            None
        };
        let ghost first_break: Option<(int, int)> = if break_before {
            Some((start as int, start as int))
        } else {
            None
        };
        let ghost mut last_break: Option<(int, int)> = first_break;
        proof {
            lemma_scan_bounds(
                &self.font,
                self.text@,
                available,
                start as int,
                start as int,
                first_break,
                break_before,
            );
            assert(self.text@.subrange(start as int, start as int) =~= Seq::<char>::empty());
        }
        loop
            invariant
                len == self.text@.len(),
                self.spec_measurable(),
                start <= pos <= len,
                first_break == if break_before {
                    Some((start as int, start as int))
                } else {
                    None::<(int, int)>
                },
                shaped.font == self.font,
                shaped.glyphs@ == self.text@.subrange(start as int, pos as int),
                shaped@.wf(),
                forall|i: int| start <= i < pos ==> self.text@[i] != '\n',
                last_break_opportunity is Some <==> last_break is Some,
                last_break_opportunity matches Some((state, next)) ==> {
                    &&& last_break == Some((start + state.glyphs, next as int))
                    &&& start <= start + state.glyphs <= next <= pos
                    &&& state.advance_width matches Some(width) ==> spec_text_width(
                        self.font.0.advances@,
                        self.text@.subrange(start as int, start + state.glyphs),
                    ) == Some(width)
                },
                spec_scan(&self.font, self.text@, available, start as int, pos as int, last_break)
                    == spec_scan(
                    &self.font,
                    self.text@,
                    available,
                    start as int,
                    start as int,
                    first_break,
                ),
                ({
                    let line = spec_scan(
                        &self.font,
                        self.text@,
                        available,
                        start as int,
                        start as int,
                        first_break,
                    );
                    &&& start <= line.end <= line.next <= self.text@.len()
                    &&& line.next > start || break_before || (line.next >= self.text@.len()
                        && !line.newline)
                }),
            decreases len - pos,
        {
            let at_end = pos >= len;
            proof {
                self.lemma_measurable_range(start as int, pos as int);
            }
            if at_end || self.text[pos] == ' ' || self.text[pos] == '\n' {
                let inline_size: Length = shaped.get_advance_width().unwrap();
                if inline_size.units > available.units {
                    match last_break_opportunity {
                        Some((state, next)) => {
                            shaped.restore(&state);
                            proof {
                                assert(shaped.glyphs@ =~= self.text@.subrange(
                                    start as int,
                                    start + state.glyphs,
                                ));
                                self.lemma_measurable_range(start as int, start + state.glyphs);
                            }
                            return (shaped, next, false);
                        },
                        None => {
                            if at_end {
                                return (shaped, pos, false);
                            }
                            // The segment is too wide and ends here all the
                            // same; a newline that ends it is not lost.
                            let newline = self.text[pos] == '\n';
                            return (shaped, pos + 1, newline);
                        },
                    }
                }
            }
            if at_end {
                return (shaped, pos, false);
            }
            let ch = self.text[pos];
            if ch == '\n' {
                proof {
                    lemma_strip_space_is_prefix(shaped.glyphs@);
                    let kept = spec_strip_space(shaped.glyphs@).len() as int;
                    assert(self.text@.subrange(start as int, pos as int).take(kept)
                        =~= self.text@.subrange(start as int, start + kept));
                    self.lemma_measurable_range(start as int, start + kept);
                }
                shaped.strip_space();
                return (shaped, pos + 1, true);
            }
            if ch == ' ' {
                last_break_opportunity = Some((shaped.save(), pos + 1));
                proof {
                    last_break = Some((pos as int, pos + 1));
                }
            }
            let appended = shaped.append_char(ch);
            proof {
                assert(self.text@.subrange(start as int, pos as int).push(ch)
                    =~= self.text@.subrange(start as int, pos + 1));
            }
            pos += 1;
        }
    }
}

impl TextRun {
    /// The state after the text from `pos` on is laid out with word wrap.
    ///
    /// Line by line: the text is scanned for one line's worth, which is
    /// placed; unless the text is used up, the line is finished and the rest
    /// goes on the next. A break before the first glyph is offered only where
    /// something stands on the line already, so that a word that fits nowhere
    /// is placed on a line of its own rather than put off for ever.
    pub open spec fn spec_layout_wrap_from(&self, s: StateView, pos: int) -> StateView
        decreases self.text@.len() - pos, (if s.inline_position@ > 0 {
            1int
        } else {
            0int
        }),
    {
        if pos < 0 || pos > self.text@.len() {
            s
        } else {
            let line = spec_scan(
                &self.font,
                self.text@,
                s.containing_block.inline_size.minus(s.inline_position),
                pos,
                pos,
                if s.inline_position@ > 0 {
                    Some((pos, pos))
                } else {
                    None
                },
            );
            let placed = self.spec_place(s, self.text@.subrange(pos, line.end));
            if line.next >= self.text@.len() && !line.newline {
                placed
            } else if pos < line.next <= self.text@.len() {
                self.spec_layout_wrap_from(placed.spec_finish_line(), line.next)
            } else if line.next == pos && s.inline_position@ > 0 {
                self.spec_layout_wrap_from(placed.spec_finish_line(), line.next)
            } else {
                placed
            }
        }
    }

    /// The state after the text from `pos` on is laid out without word
    /// wrap: each stretch up to a newline is placed whole, and each newline
    /// finishes a line.
    pub open spec fn spec_layout_nowrap_from(&self, s: StateView, pos: int) -> StateView
        decreases self.text@.len() - pos,
    {
        if pos < 0 || pos > self.text@.len() {
            s
        } else {
            let end = spec_line_end(self.text@, pos);
            let placed = self.spec_place(s, self.text@.subrange(pos, end));
            if end >= self.text@.len() {
                placed
            } else if pos <= end {
                self.spec_layout_nowrap_from(placed.spec_finish_line(), end + 1)
            } else {
                placed
            }
        }
    }

    /// The state after the run is laid out: without word wrap where its
    /// style is `nowrap` or `pre`, with word wrap else.
    pub open spec fn spec_layout(&self, s: StateView) -> StateView {
        if self.parent_style.text_inherited.white_space.spec_breaks_on_newlines_only() {
            self.spec_layout_nowrap_from(s, 0)
        } else {
            self.spec_layout_wrap_from(s, 0)
        }
    }

    pub fn layout(&self, ifc: &mut InlineFormattingContextState)
        requires
            old(ifc).wf(),
            self.spec_measurable(),
        ensures
            final(ifc)@ == self.spec_layout(old(ifc)@),
            final(ifc).wf(),
            old(ifc)@.lines_consistent() ==> final(ifc)@.lines_consistent(),
            final(ifc).partial_inline_boxes_stack@.len() == old(ifc).partial_inline_boxes_stack@.len(),
    {
        if self.parent_style.text_inherited.white_space.breaks_on_newlines_only() {
            self.layout_nowrap(ifc)
        } else {
            self.layout_wrap(ifc)
        }
    }

    /// Text layout with word wrap.
    pub fn layout_wrap(&self, ifc: &mut InlineFormattingContextState)
        requires
            old(ifc).wf(),
            self.spec_measurable(),
        ensures
            final(ifc)@ == self.spec_layout_wrap_from(old(ifc)@, 0),
            final(ifc).wf(),
            old(ifc)@.lines_consistent() ==> final(ifc)@.lines_consistent(),
            final(ifc).partial_inline_boxes_stack@.len() == old(ifc).partial_inline_boxes_stack@.len(),
    {
        let len = self.text.len();
        let mut pos: usize = 0;
        loop
            invariant
                ifc.wf(),
                old(ifc)@.lines_consistent() ==> ifc@.lines_consistent(),
                ifc.partial_inline_boxes_stack@.len() == old(ifc).partial_inline_boxes_stack@.len(),
                self.spec_measurable(),
                pos <= len == self.text@.len(),
                self.spec_layout_wrap_from(ifc@, pos as int) == self.spec_layout_wrap_from(
                    old(ifc)@,
                    0,
                ),
            decreases len - pos, (if ifc.inline_position@ > 0 {
                1int
            } else {
                0int
            }),
        {
            let available = ifc.containing_block.inline_size - ifc.inline_position;
            let break_before = ifc.inline_position.units > 0;
            let (mut shaped, next, newline) = self.scan_line(pos, available, break_before);
            let inline_size: Length = shaped.get_advance_width().unwrap();
            self.place(ifc, shaped, inline_size);
            if next >= len && !newline {
                return ;
            }
            // A line break: finish the line and start a new one.
            ifc.finish_line();
            pos = next;
        }
    }

    /// Text layout without word wrap.
    pub fn layout_nowrap(&self, ifc: &mut InlineFormattingContextState)
        requires
            old(ifc).wf(),
            self.spec_measurable(),
        ensures
            final(ifc)@ == self.spec_layout_nowrap_from(old(ifc)@, 0),
            final(ifc).wf(),
            old(ifc)@.lines_consistent() ==> final(ifc)@.lines_consistent(),
            final(ifc).partial_inline_boxes_stack@.len() == old(ifc).partial_inline_boxes_stack@.len(),
    {
        let len = self.text.len();
        let mut pos: usize = 0;
        loop
            invariant
                ifc.wf(),
                old(ifc)@.lines_consistent() ==> ifc@.lines_consistent(),
                ifc.partial_inline_boxes_stack@.len() == old(ifc).partial_inline_boxes_stack@.len(),
                self.spec_measurable(),
                pos <= len == self.text@.len(),
                self.spec_layout_nowrap_from(ifc@, pos as int) == self.spec_layout_nowrap_from(
                    old(ifc)@,
                    0,
                ),
            decreases len - pos,
        {
            let ghost start = pos;
            let mut newline = false;
            let mut shaped = ShapedSegment::new(self.font.share());
            proof {
                assert(self.text@.subrange(pos as int, pos as int) =~= Seq::<char>::empty());
                lemma_line_end(self.text@, pos as int);
            }
            while pos < len && !newline
                invariant
                    len == self.text@.len(),
                    start <= pos <= len,
                    shaped.font == self.font,
                    shaped@.wf(),
                    !newline ==> shaped.glyphs@ == self.text@.subrange(start as int, pos as int),
                    !newline ==> spec_line_end(self.text@, pos as int) == spec_line_end(
                        self.text@,
                        start as int,
                    ),
                    newline ==> pos == spec_line_end(self.text@, start as int) + 1,
                    newline ==> shaped.glyphs@ == self.text@.subrange(start as int, pos - 1),
                decreases len - pos + (if newline { 0int } else { 1int }),
            {
                let ch = self.text[pos];
                if ch == '\n' {
                    newline = true;
                } else {
                    let appended = shaped.append_char(ch);
                    proof {
                        assert(self.text@.subrange(start as int, pos as int).push(ch)
                            =~= self.text@.subrange(start as int, pos + 1));
                    }
                }
                pos += 1;
            }
            proof {
                let end = spec_line_end(self.text@, start as int);
                self.lemma_measurable_range(start as int, end);
            }
            let inline_size: Length = shaped.get_advance_width().unwrap();
            self.place(ifc, shaped, inline_size);
            if pos >= len && !newline {
                return ;
            }
            // A line break: finish the line and start a new one.
            ifc.finish_line();
        }
    }
}

impl TextRun {
    /// Whether the font of the run has every glyph of the text.
    pub fn measurable(&self) -> (r: bool)
        ensures
            r == self.spec_measurable(),
    {
        let mut i: usize = 0;
        while i < self.text.len()
            invariant
                i <= self.text@.len(),
                forall|k: int|
                    0 <= k < i && self.text@[k] != '\n' ==> spec_advance(
                        self.font.0.advances@,
                        #[trigger] self.text@[k],
                    ) is Some,
            decreases self.text@.len() - i,
        {
            let ch = self.text[i];
            if ch != '\n' && lookup_advance(&self.font.0.advances, ch).is_none() {
                return false;
            }
            i += 1;
        }
        true
    }
}

} // verus!
