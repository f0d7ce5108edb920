//! What holds of every inline layout.

use vstd::prelude::*;

use crate::geom::flow_relative::Rect;
use crate::geom::flow_relative::Vec2;
use crate::graphics_engine::font::Font;
use crate::layout::ContainingBlock;
use crate::layout::flow::FlowChildren;
use crate::layout::flow::inline::InlineBox;
use crate::layout::flow::inline::InlineFormattingContext;
use crate::layout::flow::inline::InlineLevelBox;
use crate::layout::flow::inline::LevelView;
use crate::layout::flow::inline::PartialInlineBoxFragment;
use crate::layout::flow::inline::spec_close_all;
use crate::layout::flow::inline::spec_close_step;
use crate::layout::flow::inline::spec_without_inline_end;
use crate::layout::flow::inline::spec_without_inline_start;
use crate::layout::flow::inline::spec_layout_box;
use crate::layout::flow::inline::spec_layout_boxes;
use crate::layout::flow::inline::StateView;
use crate::layout::flow::inline::text::lemma_line_end;
use crate::layout::flow::inline::text::spec_count_newlines;
use crate::layout::flow::inline::text::spec_is_break;
use crate::layout::flow::inline::text::spec_line_end;
use crate::layout::flow::inline::text::spec_overflows;
use crate::layout::flow::inline::text::spec_scan;
use crate::layout::flow::inline::text::spec_width_of;
use crate::layout::flow::inline::text::WrapLine;
use crate::layout::flow::inline::TextRun;
use crate::layout::fragments::FragmentView;
use crate::layout::fragments::spec_views;
use crate::layout::LayoutError;
use crate::layout::positioned::AbsolutelyPositionedFragment;
use crate::style::values::length::Length;

verus! {

/// Layout is a function of the boxes and the containing block: two layouts
/// of the same formatting context in the same containing block end alike, with
/// the same lines of the same fragments or with the same obstacle.
pub proof fn lemma_layout_is_deterministic(
    ifc: &InlineFormattingContext,
    containing_block: ContainingBlock,
    tree_rank: usize,
    absolutes_before: Seq<AbsolutelyPositionedFragment>,
    first: Result<FlowChildren, LayoutError>,
    absolutes_after_first: Seq<AbsolutelyPositionedFragment>,
    second: Result<FlowChildren, LayoutError>,
    absolutes_after_second: Seq<AbsolutelyPositionedFragment>,
)
    requires
        ifc.spec_is_outcome(
            containing_block,
            tree_rank,
            absolutes_before,
            first,
            absolutes_after_first,
        ),
        ifc.spec_is_outcome(
            containing_block,
            tree_rank,
            absolutes_before,
            second,
            absolutes_after_second,
        ),
    ensures
        first is Ok <==> second is Ok,
        first is Ok ==> spec_views(first->Ok_0.fragments@) == spec_views(second->Ok_0.fragments@),
        first is Ok ==> first->Ok_0.block_size == second->Ok_0.block_size,
        first is Err ==> first->Err_0 == second->Err_0,
        absolutes_after_first == absolutes_after_second,
{
}

/// Without word wrap, a text run finishes exactly as many lines as it has
/// newline characters from `pos` on, whatever the width of the containing
/// block and whatever stands on the line.
pub proof fn lemma_nowrap_line_count(run: &TextRun, s: StateView, pos: int)
    requires
        0 <= pos <= run.text@.len(),
    ensures
        run.spec_layout_nowrap_from(s, pos).lines.len() == s.lines.len() + spec_count_newlines(
            run.text@,
            pos,
        ),
    decreases run.text@.len() - pos,
{
    let text = run.text@;
    let end = spec_line_end(text, pos);
    lemma_line_end(text, pos);
    let placed = run.spec_place(s, text.subrange(pos, end));
    if end < text.len() {
        lemma_nowrap_line_count(run, placed.spec_finish_line(), end + 1);
    } else {
        assert(spec_count_newlines(text, end) == 0);
    }
}

/// `rect` without its place and its size along the inline axis.
pub open spec fn spec_without_inline(rect: Rect<Length>) -> Rect<Length> {
    Rect {
        start_corner: Vec2 { inline: Length::spec_zero(), block: rect.start_corner.block },
        size: Vec2 { inline: Length::spec_zero(), block: rect.size.block },
    }
}

/// `lines` without the places and sizes of the lines along the inline axis.
/// What the lines hold stays as it is.
pub open spec fn spec_lines_apart_from_width(lines: Seq<FragmentView>) -> Seq<FragmentView> {
    Seq::new(lines.len(), |i: int| lines[i].with_rect(spec_without_inline(lines[i].rect())))
}

/// A state apart from the width of its containing block: the inline size of
/// the containing block is left out, and with it where each finished line
/// lies and how far it reaches along the inline axis. All that the lines and
/// the levels hold is kept.
pub open spec fn spec_apart_from_width(s: StateView) -> StateView {
    StateView {
        containing_block: ContainingBlock {
            inline_size: Length::spec_zero(),
            ..s.containing_block
        },
        lines: spec_lines_apart_from_width(s.lines),
        ..s
    }
}

/// Two states that are alike apart from the width of the containing block
/// are still so after a line is finished in each.
pub proof fn lemma_finish_line_apart_from_width(a: StateView, b: StateView)
    requires
        spec_apart_from_width(a) == spec_apart_from_width(b),
    ensures
        spec_apart_from_width(a.spec_finish_line()) == spec_apart_from_width(b.spec_finish_line()),
{
    let after_a = a.spec_finish_line();
    let after_b = b.spec_finish_line();
    let apart_a = spec_apart_from_width(a);
    let apart_b = spec_apart_from_width(b);
    assert(a.levels == apart_a.levels && b.levels == apart_b.levels);
    assert(a.partials == apart_a.partials && b.partials == apart_b.partials);
    assert(a.lines.len() == apart_a.lines.len() && b.lines.len() == apart_b.lines.len());
    assert forall|i: int| 0 <= i < after_a.lines.len() implies spec_lines_apart_from_width(
        after_a.lines,
    )[i] == spec_lines_apart_from_width(after_b.lines)[i] by {
        if i < a.lines.len() {
            assert(after_a.lines[i] == a.lines[i]);
            assert(after_b.lines[i] == b.lines[i]);
            assert(apart_a.lines[i] == apart_b.lines[i]);
        }
    }
    assert(spec_lines_apart_from_width(after_a.lines) =~= spec_lines_apart_from_width(
        after_b.lines,
    ));
}

/// Without word wrap, the width of the containing block has no part in how
/// a text run is laid out: two states that are alike apart from that width
/// are alike apart from it after the run. They have finished the same number
/// of lines, and their lines and levels hold the same text fragments, with
/// the same glyphs at the same places and of the same sizes, however narrow
/// the containing block is.
pub proof fn lemma_nowrap_apart_from_width(run: &TextRun, a: StateView, b: StateView, pos: int)
    requires
        0 <= pos <= run.text@.len(),
        spec_apart_from_width(a) == spec_apart_from_width(b),
    ensures
        spec_apart_from_width(run.spec_layout_nowrap_from(a, pos)) == spec_apart_from_width(
            run.spec_layout_nowrap_from(b, pos),
        ),
    decreases run.text@.len() - pos,
{
    let text = run.text@;
    let end = spec_line_end(text, pos);
    lemma_line_end(text, pos);
    let glyphs = text.subrange(pos, end);
    let placed_a = run.spec_place(a, glyphs);
    let placed_b = run.spec_place(b, glyphs);
    let apart_a = spec_apart_from_width(a);
    let apart_b = spec_apart_from_width(b);
    assert(a.levels == apart_a.levels && b.levels == apart_b.levels);
    assert(a.inline_position == apart_a.inline_position && b.inline_position
        == apart_b.inline_position);
    assert(spec_apart_from_width(placed_a) == spec_apart_from_width(placed_b)) by {
        assert(spec_apart_from_width(placed_a).lines == apart_a.lines);
        assert(spec_apart_from_width(placed_b).lines == apart_b.lines);
        assert(spec_apart_from_width(placed_a).containing_block == apart_a.containing_block);
        assert(spec_apart_from_width(placed_b).containing_block == apart_b.containing_block);
    }
    if end < text.len() {
        lemma_finish_line_apart_from_width(placed_a, placed_b);
        lemma_nowrap_apart_from_width(
            run,
            placed_a.spec_finish_line(),
            placed_b.spec_finish_line(),
            end + 1,
        );
    }
}

/// Without word wrap, a text run is laid out alike in containing blocks of
/// any two widths: as many lines are finished, each line holds the same
/// fragments, and so does each level of the line that is being filled.
pub proof fn lemma_nowrap_is_the_same_at_any_width(run: &TextRun, s: StateView, width: Length)
    ensures
        ({
            let narrow = StateView {
                containing_block: ContainingBlock { inline_size: width, ..s.containing_block },
                ..s
            };
            let one = run.spec_layout_nowrap_from(s, 0);
            let other = run.spec_layout_nowrap_from(narrow, 0);
            &&& one.lines.len() == other.lines.len()
            &&& one.levels == other.levels
            &&& one.inline_position == other.inline_position
            &&& one.next_line_block_position == other.next_line_block_position
            &&& forall|i: int|
                0 <= i < one.lines.len() ==> (#[trigger] one.lines[i]).with_rect(
                    spec_without_inline(one.lines[i].rect()),
                ) == other.lines[i].with_rect(spec_without_inline(other.lines[i].rect()))
        }),
{
    let narrow = StateView {
        containing_block: ContainingBlock { inline_size: width, ..s.containing_block },
        ..s
    };
    lemma_nowrap_apart_from_width(run, s, narrow, 0);
    let one = run.spec_layout_nowrap_from(s, 0);
    let other = run.spec_layout_nowrap_from(narrow, 0);
    let apart_one = spec_apart_from_width(one);
    let apart_other = spec_apart_from_width(other);
    assert(apart_one.lines.len() == one.lines.len());
    assert(apart_other.lines.len() == other.lines.len());
    assert forall|i: int| 0 <= i < one.lines.len() implies (#[trigger] one.lines[i]).with_rect(
        spec_without_inline(one.lines[i].rect()),
    ) == other.lines[i].with_rect(spec_without_inline(other.lines[i].rect())) by {
        assert(apart_one.lines[i] == apart_other.lines[i]);
    }
}

/// Whether every text run among the boxes from index `from` on, at any
/// depth, breaks on newlines alone.
pub open spec fn spec_all_unwrapped(boxes: Seq<InlineLevelBox>, from: int) -> bool
    decreases boxes, boxes.len() - from,
{
    if from < 0 || from >= boxes.len() {
        true
    } else {
        let here = match boxes[from] {
            InlineLevelBox::InlineBox(inline) => spec_all_unwrapped(inline.children@, 0),
            InlineLevelBox::TextRun(run) => run.parent_style.text_inherited.white_space.spec_breaks_on_newlines_only(),
            _ => true,
        };
        here && spec_all_unwrapped(boxes, from + 1)
    }
}

/// The number of newline characters in the text runs among the boxes from
/// index `from` on, at any depth.
pub open spec fn spec_newlines_in(boxes: Seq<InlineLevelBox>, from: int) -> nat
    decreases boxes, boxes.len() - from,
{
    if from < 0 || from >= boxes.len() {
        0
    } else {
        let here = match boxes[from] {
            InlineLevelBox::InlineBox(inline) => spec_newlines_in(inline.children@, 0),
            InlineLevelBox::TextRun(run) => spec_count_newlines(run.text@, 0),
            _ => 0,
        };
        here + spec_newlines_in(boxes, from + 1)
    }
}

/// Where no text wraps, laying boxes out finishes exactly as many lines as
/// their texts have newline characters.
pub proof fn lemma_unwrapped_boxes_line_count(boxes: Seq<InlineLevelBox>, from: int, s: StateView)
    requires
        0 <= from <= boxes.len(),
        spec_all_unwrapped(boxes, from),
    ensures
        spec_layout_boxes(boxes, from, s).lines.len() == s.lines.len() + spec_newlines_in(
            boxes,
            from,
        ),
    decreases boxes, boxes.len() - from,
{
    if from < boxes.len() {
        let after = spec_layout_box(boxes[from], s);
        match boxes[from] {
            InlineLevelBox::InlineBox(inline) => {
                lemma_unwrapped_boxes_line_count(inline.children@, 0, inline.spec_start_layout(s));
            },
            InlineLevelBox::TextRun(run) => {
                lemma_nowrap_line_count(&run, s, 0);
            },
            _ => {},
        }
        lemma_unwrapped_boxes_line_count(boxes, from + 1, after);
    }
}

/// In a formatting context in which no text wraps, the number of lines is
/// one more than the number of newline characters, whatever the width of the
/// containing block.
pub proof fn lemma_unwrapped_layout_line_count(
    ifc: &InlineFormattingContext,
    containing_block: ContainingBlock,
    tree_rank: usize,
    absolutes: Seq<AbsolutelyPositionedFragment>,
)
    requires
        spec_all_unwrapped(ifc.inline_level_boxes@, 0),
    ensures
        ifc.spec_final_state(containing_block, tree_rank, absolutes).lines.len() == 1
            + spec_newlines_in(ifc.inline_level_boxes@, 0),
{
    lemma_unwrapped_boxes_line_count(
        ifc.inline_level_boxes@,
        0,
        ifc.spec_initial_state(containing_block, tree_rank, absolutes),
    );
}

/// Whether the text has no place to break between `from` and `to`: neither
/// a space nor a newline.
pub open spec fn spec_unbreakable(text: Seq<char>, from: int, to: int) -> bool {
    forall|i: int| from <= i < to ==> #[trigger] text[i] != ' ' && text[i] != '\n'
}

/// A scan runs through glyphs that offer no break without a decision: it
/// is at their end what it was at their start.
pub proof fn lemma_scan_skips_unbreakable(
    font: &Font,
    text: Seq<char>,
    available: Length,
    start: int,
    pos: int,
    to: int,
    last_break: Option<(int, int)>,
)
    requires
        0 <= start <= pos <= to <= text.len(),
        spec_unbreakable(text, pos, to),
    ensures
        spec_scan(font, text, available, start, pos, last_break) == spec_scan(
            font,
            text,
            available,
            start,
            to,
            last_break,
        ),
    decreases to - pos,
{
    if pos < to {
        assert(text[pos] != ' ' && text[pos] != '\n');
        lemma_scan_skips_unbreakable(font, text, available, start, pos + 1, to, last_break);
    }
}

/// A word that is wider than what the line has left is never split: where
/// no break before it is on offer, the line takes the whole word, up to the
/// break that follows it, and the scan goes on after that break. Where that
/// break is a newline, it ends the line as a newline does.
pub proof fn lemma_wide_word_is_not_split(
    font: &Font,
    text: Seq<char>,
    available: Length,
    start: int,
    to: int,
)
    requires
        0 <= start < to <= text.len(),
        spec_unbreakable(text, start, to),
        spec_is_break(text, to),
        spec_overflows(font, text, start, to, available),
    ensures
        spec_scan(font, text, available, start, start, None) == (WrapLine {
            end: to,
            next: if to < text.len() {
                to + 1
            } else {
                to
            },
            newline: to < text.len() && text[to] == '\n',
        }),
{
    lemma_scan_skips_unbreakable(font, text, available, start, start, to, None);
}

/// What is known of the last break that a scan has passed when it stands
/// at `pos`: up to the break the glyphs fit, unless the break lies at the very
/// start, and no other break lies between it and `pos`. Where no break was
/// passed, none lies between the start and `pos`.
pub open spec fn spec_break_is_sound(
    font: &Font,
    text: Seq<char>,
    available: Length,
    start: int,
    pos: int,
    last_break: Option<(int, int)>,
) -> bool {
    match last_break {
        Some((end, next)) => {
            &&& start <= end <= pos
            &&& end == start || !spec_overflows(font, text, start, end, available)
            &&& spec_unbreakable(text, end + 1, pos)
        },
        None => spec_unbreakable(text, start, pos),
    }
}

/// What makes a line break greedy. The glyphs that the line takes fit what
/// the line has left, unless they are one unbreakable word or none at all;
/// before a newline, the glyphs fit with the spaces that the newline takes
/// away. And unless a newline that fits or the end of the text ended the
/// line, it could not have taken more: up to the next place to break, the
/// glyphs are too wide.
pub open spec fn spec_is_greedy(
    font: &Font,
    text: Seq<char>,
    available: Length,
    start: int,
    line: WrapLine,
) -> bool {
    let fits_before_newline = line.newline && !spec_overflows(
        font,
        text,
        start,
        line.next - 1,
        available,
    );
    &&& line.newline ==> start < line.next <= text.len() && text[line.next - 1] == '\n'
    &&& fits_before_newline || line.end == start || !spec_overflows(
        font,
        text,
        start,
        line.end,
        available,
    ) || spec_unbreakable(text, start, line.end)
    &&& !fits_before_newline && line.end < text.len() ==> exists|j: int|
        line.end <= j <= text.len() && spec_is_break(text, j) && spec_overflows(
            font,
            text,
            start,
            j,
            available,
        ) && #[trigger] spec_unbreakable(text, line.end + 1, j)
}

/// A scan that knows its last break soundly ends the line greedily.
pub proof fn lemma_scan_is_greedy_from(
    font: &Font,
    text: Seq<char>,
    available: Length,
    start: int,
    pos: int,
    last_break: Option<(int, int)>,
)
    requires
        0 <= start <= pos <= text.len(),
        spec_break_is_sound(font, text, available, start, pos, last_break),
    ensures
        spec_is_greedy(
            font,
            text,
            available,
            start,
            spec_scan(font, text, available, start, pos, last_break),
        ),
    decreases text.len() - pos,
{
    let line = spec_scan(font, text, available, start, pos, last_break);
    if spec_is_break(text, pos) && spec_overflows(font, text, start, pos, available) {
        if line.end < text.len() {
            assert(spec_unbreakable(text, line.end + 1, pos));
        }
    } else if pos >= text.len() {
    } else if text[pos] == '\n' {
    } else {
        let next_break = if text[pos] == ' ' {
            Some((pos, pos + 1))
        } else {
            last_break
        };
        assert(spec_break_is_sound(font, text, available, start, pos + 1, next_break)) by {
            match next_break {
                Some((end, next)) => {
                    assert forall|i: int| end + 1 <= i < pos + 1 implies #[trigger] text[i] != ' '
                        && text[i] != '\n' by {
                        if i < pos {
                            assert(spec_unbreakable(text, end + 1, pos));
                        }
                    }
                },
                None => {
                    assert forall|i: int| start <= i < pos + 1 implies #[trigger] text[i] != ' '
                        && text[i] != '\n' by {
                        if i < pos {
                            assert(spec_unbreakable(text, start, pos));
                        }
                    }
                },
            }
        }
        lemma_scan_is_greedy_from(font, text, available, start, pos + 1, next_break);
    }
}

/// In wrap mode a line break is greedy: the line takes the words that fit
/// and no more, and is too wide only where one word alone is.
pub proof fn lemma_scan_is_greedy(
    font: &Font,
    text: Seq<char>,
    available: Length,
    start: int,
    break_before: bool,
)
    requires
        0 <= start <= text.len(),
    ensures
        spec_is_greedy(
            font,
            text,
            available,
            start,
            spec_scan(
                font,
                text,
                available,
                start,
                start,
                if break_before {
                    Some((start, start))
                } else {
                    None
                },
            ),
        ),
{
    lemma_scan_is_greedy_from(
        font,
        text,
        available,
        start,
        start,
        if break_before {
            Some((start, start))
        } else {
            None
        },
    );
}

/// Whether every place to break from `from` up to and with `to` is a space
/// up to which the glyphs from `start` on fit what the line has left.
pub open spec fn spec_breaks_fit(
    font: &Font,
    text: Seq<char>,
    available: Length,
    start: int,
    from: int,
    to: int,
) -> bool {
    forall|j: int|
        from <= j <= to && #[trigger] spec_is_break(text, j) ==> j < text.len() && text[j] == ' '
            && !spec_overflows(font, text, start, j, available)
}

/// Where the words up to the space at `k` fit and the word after it, which
/// reaches up to the break at `to`, does not fit beside them, the line ends at
/// that space: the words before it go on the line, and the scan goes on with
/// the word after it.
pub proof fn lemma_scan_breaks_before_the_word_that_does_not_fit(
    font: &Font,
    text: Seq<char>,
    available: Length,
    start: int,
    pos: int,
    k: int,
    to: int,
    last_break: Option<(int, int)>,
)
    requires
        0 <= start <= pos <= k < to <= text.len(),
        text[k] == ' ',
        spec_breaks_fit(font, text, available, start, pos, k),
        spec_unbreakable(text, k + 1, to),
        spec_is_break(text, to),
        spec_overflows(font, text, start, to, available),
    ensures
        spec_scan(font, text, available, start, pos, last_break) == (WrapLine {
            end: k,
            next: k + 1,
            newline: false,
        }),
    decreases k - pos,
{
    if spec_is_break(text, pos) {
        assert(text[pos] == ' ' && !spec_overflows(font, text, start, pos, available));
    }
    if pos < k {
        let next_break = if text[pos] == ' ' {
            Some((pos, pos + 1))
        } else {
            last_break
        };
        assert(spec_breaks_fit(font, text, available, start, pos + 1, k)) by {
            assert forall|j: int| pos + 1 <= j <= k && #[trigger] spec_is_break(text, j) implies j
                < text.len() && text[j] == ' ' && !spec_overflows(
                font,
                text,
                start,
                j,
                available,
            ) by {
                assert(spec_breaks_fit(font, text, available, start, pos, k));
            }
        }
        lemma_scan_breaks_before_the_word_that_does_not_fit(
            font,
            text,
            available,
            start,
            pos + 1,
            k,
            to,
            next_break,
        );
    } else {
        assert(spec_is_break(text, k));
        lemma_scan_skips_unbreakable(font, text, available, start, k + 1, to, Some((k, k + 1)));
    }
}

/// Closing the open boxes below index `k` for a line break keeps the
/// number of levels and of open boxes, leaves the levels above `k` alone, and
/// leaves the levels from 1 to `k` empty at the start of the line.
pub proof fn lemma_close_all_resets(
    levels: Seq<LevelView>,
    partials: Seq<PartialInlineBoxFragment>,
    inline_position: Length,
    k: int,
)
    requires
        levels.len() == partials.len() + 1,
        0 <= k <= partials.len(),
    ensures
        ({
            let (l, p) = spec_close_all(levels, partials, inline_position, k);
            &&& l.len() == levels.len()
            &&& p.len() == partials.len()
            &&& forall|i: int| k < i < levels.len() ==> #[trigger] l[i] == levels[i]
            &&& forall|i: int|
                1 <= i <= k ==> (#[trigger] l[i]).fragments.len() == 0 && l[i].inline_start
                    == Length::spec_zero()
        }),
    decreases k,
{
    if k > 0 {
        let (stepped_levels, stepped_partials) = spec_close_step(levels, partials, inline_position, k - 1);
        lemma_close_all_resets(stepped_levels, stepped_partials, inline_position, k - 1);
        let (l, p) = spec_close_all(stepped_levels, stepped_partials, inline_position, k - 1);
        assert(l[k] == stepped_levels[k]);
    }
}

/// After a line is finished, every level is empty and starts at the start
/// of the line, and so does the line.
pub proof fn lemma_finish_line_starts_afresh(s: StateView)
    requires
        s.wf(),
    ensures
        s.spec_finish_line().wf(),
        s.spec_finish_line().levels.len() == s.levels.len(),
        s.spec_finish_line().lines.len() == s.lines.len() + 1,
        s.spec_finish_line().inline_position == Length::spec_zero(),
        forall|i: int|
            0 <= i < s.levels.len() ==> (#[trigger] s.spec_finish_line().levels[i]).fragments.len()
                == 0 && s.spec_finish_line().levels[i].inline_start == Length::spec_zero(),
{
    lemma_close_all_resets(s.levels, s.partials, s.inline_position, s.partials.len() as int);
}

/// An inline box that a line break cuts in two gives two box fragments.
/// The first, closed by the break, lacks the inline-end padding, border and
/// margin of the box and nothing else of them. The second, which goes on after
/// the break and is closed where the box ends, lacks the inline-start padding,
/// border and margin and nothing else, if the box is the last piece of its
/// element. Neither lacks a block-start or block-end side.
pub proof fn lemma_box_across_a_line_break(
    open: PartialInlineBoxFragment,
    parent_before: LevelView,
    child_before: LevelView,
    position_before: Length,
    parent_after: LevelView,
    child_after: LevelView,
    position_after: Length,
)
    requires
        open.last_box_tree_fragment,
    ensures
        ({
            let first = open.spec_box_fragment(parent_before, child_before, position_before, true);
            let second = open.spec_continued().spec_box_fragment(
                parent_after,
                child_after,
                position_after,
                false,
            );
            &&& first.padding == spec_without_inline_end(open.padding)
            &&& first.border == spec_without_inline_end(open.border)
            &&& first.margin == spec_without_inline_end(open.margin)
            &&& second.padding == spec_without_inline_start(open.padding)
            &&& second.border == spec_without_inline_start(open.border)
            &&& second.margin == spec_without_inline_start(open.margin)
            &&& first.style == open.style && second.style == open.style
            &&& first.content_rect.start_corner.inline == open.start_corner.inline
            &&& second.content_rect.start_corner.inline == Length::spec_zero()
        }),
{
}

/// A line break closes the innermost open box with such a first piece and
/// lets it go on as the box that gives such a second piece: the level around
/// it gets the box fragment that lacks its inline-end sides, and the open box
/// of the next line lacks its inline-start sides.
pub proof fn lemma_finish_line_cuts_the_innermost_box(s: StateView)
    requires
        s.wf(),
        s.partials.len() > 0,
    ensures
        ({
            let n = s.partials.len() as int;
            let (levels, partials) = spec_close_step(s.levels, s.partials, s.inline_position, n - 1);
            &&& levels[n - 1].fragments.last() == FragmentView::Box(
                s.partials[n - 1].spec_box_fragment(
                    s.levels[n - 1],
                    s.levels[n],
                    s.inline_position,
                    true,
                ),
            )
            &&& partials[n - 1] == s.partials[n - 1].spec_continued()
            &&& s.spec_finish_line().partials[n - 1] == s.partials[n - 1].spec_continued()
        }),
{
    let n = s.partials.len() as int;
    let (levels, partials) = spec_close_step(s.levels, s.partials, s.inline_position, n - 1);
    lemma_close_all_keeps_partials_above(levels, partials, s.inline_position, n - 1);
}

/// Closing the open boxes below index `k` leaves the open boxes from `k` on
/// as they are.
pub proof fn lemma_close_all_keeps_partials_above(
    levels: Seq<LevelView>,
    partials: Seq<PartialInlineBoxFragment>,
    inline_position: Length,
    k: int,
)
    requires
        levels.len() == partials.len() + 1,
        0 <= k <= partials.len(),
    ensures
        spec_close_all(levels, partials, inline_position, k).1.len() == partials.len(),
        spec_close_all(levels, partials, inline_position, k).0.len() == levels.len(),
        forall|i: int|
            k <= i < partials.len() ==> #[trigger] spec_close_all(
                levels,
                partials,
                inline_position,
                k,
            ).1[i] == partials[i],
    decreases k,
{
    if k > 0 {
        let (stepped, open) = spec_close_step(levels, partials, inline_position, k - 1);
        lemma_close_all_keeps_partials_above(stepped, open, inline_position, k - 1);
    }
}

/// Where a level starts on the line is settled when the level is opened,
/// at the place where the line then stands, and stays as it is while text is
/// placed and boxes are opened and closed. Only the end of a line sets it
/// back to zero.
pub proof fn lemma_levels_keep_their_start(
    s: StateView,
    run: &TextRun,
    glyphs: Seq<char>,
    inline: &InlineBox,
    i: int,
)
    requires
        s.wf(),
        0 <= i < s.levels.len(),
    ensures
        run.spec_place(s, glyphs).levels[i].inline_start == s.levels[i].inline_start,
        inline.spec_start_layout(s).levels[i].inline_start == s.levels[i].inline_start,
        inline.spec_start_layout(s).current().inline_start == inline.spec_start_layout(
            s,
        ).inline_position,
        i + 1 < s.levels.len() ==> s.spec_end_box().levels[i].inline_start
            == s.levels[i].inline_start,
        s.spec_finish_line().levels[i].inline_start == Length::spec_zero(),
{
    lemma_finish_line_starts_afresh(s);
}

/// In wrap mode, a text run that is one unbreakable word is never split.
/// Where it is wider than what the line has left and something stands on the
/// line, the line is finished and the whole word is placed on the next; else
/// the whole word is placed on the line as it is, however wide.
pub proof fn lemma_unbreakable_run_is_placed_whole(run: &TextRun, s: StateView)
    requires
        run.text@.len() > 0,
        spec_unbreakable(run.text@, 0, run.text@.len() as int),
    ensures
        run.spec_layout_wrap_from(s, 0) == if s.inline_position@ > 0 && spec_overflows(
            &run.font,
            run.text@,
            0,
            run.text@.len() as int,
            s.containing_block.inline_size.minus(s.inline_position),
        ) {
            run.spec_place(s.spec_finish_line(), run.text@)
        } else {
            run.spec_place(s, run.text@)
        },
{
    let text = run.text@;
    let len = text.len() as int;
    let available = s.containing_block.inline_size.minus(s.inline_position);
    assert(text.subrange(0, len) =~= text);
    assert(text.subrange(0, 0) =~= Seq::<char>::empty());
    if s.inline_position@ > 0 {
        lemma_scan_skips_unbreakable(&run.font, text, available, 0, 0, len, Some((0, 0)));
        if spec_overflows(&run.font, text, 0, len, available) {
            let fresh = s.spec_finish_line();
            assert(run.spec_place(s, text.subrange(0, 0)) == s);
            assert(run.spec_layout_wrap_from(s, 0) == run.spec_layout_wrap_from(fresh, 0));
            let wide = fresh.containing_block.inline_size.minus(fresh.inline_position);
            lemma_scan_skips_unbreakable(&run.font, text, wide, 0, 0, len, None);
        }
    } else {
        lemma_scan_skips_unbreakable(&run.font, text, available, 0, 0, len, None);
    }
}

/// In wrap mode, a word that does not fit behind the words before it in
/// its run is not split and not left on their line: the words before it end
/// the line, and the whole word is placed on the next, however wide it is.
/// Here the run is the words up to the space at `k`, which fit, and the one
/// word after that space.
pub proof fn lemma_last_word_is_wrapped_whole(run: &TextRun, s: StateView, k: int)
    requires
        0 <= k,
        k + 1 < run.text@.len(),
        run.text@[k] == ' ',
        spec_breaks_fit(
            &run.font,
            run.text@,
            s.containing_block.inline_size.minus(s.inline_position),
            0,
            0,
            k,
        ),
        spec_unbreakable(run.text@, k + 1, run.text@.len() as int),
        spec_overflows(
            &run.font,
            run.text@,
            0,
            run.text@.len() as int,
            s.containing_block.inline_size.minus(s.inline_position),
        ),
    ensures
        run.spec_layout_wrap_from(s, 0) == run.spec_place(
            run.spec_place(s, run.text@.subrange(0, k)).spec_finish_line(),
            run.text@.subrange(k + 1, run.text@.len() as int),
        ),
{
    let text = run.text@;
    let len = text.len() as int;
    let available = s.containing_block.inline_size.minus(s.inline_position);
    lemma_scan_breaks_before_the_word_that_does_not_fit(
        &run.font,
        text,
        available,
        0,
        0,
        k,
        len,
        if s.inline_position@ > 0 {
            Some((0, 0))
        } else {
            None
        },
    );
    let fresh = run.spec_place(s, text.subrange(0, k)).spec_finish_line();
    assert(run.spec_layout_wrap_from(s, 0) == run.spec_layout_wrap_from(fresh, k + 1));
    let wide = fresh.containing_block.inline_size.minus(fresh.inline_position);
    lemma_scan_skips_unbreakable(&run.font, text, wide, k + 1, k + 1, len, None);
}

/// The word that was wrapped whole stands alone at the start of its line:
/// the line before it is finished, and the innermost level of the new line
/// holds the text fragment of the whole word and nothing else, at inline
/// offset zero and as wide as the font measures the word.
pub proof fn lemma_last_word_stands_alone(run: &TextRun, s: StateView, k: int)
    requires
        s.wf(),
        0 <= k,
        k + 1 < run.text@.len(),
        run.text@[k] == ' ',
        spec_breaks_fit(
            &run.font,
            run.text@,
            s.containing_block.inline_size.minus(s.inline_position),
            0,
            0,
            k,
        ),
        spec_unbreakable(run.text@, k + 1, run.text@.len() as int),
        spec_overflows(
            &run.font,
            run.text@,
            0,
            run.text@.len() as int,
            s.containing_block.inline_size.minus(s.inline_position),
        ),
    ensures
        ({
            let after = run.spec_layout_wrap_from(s, 0);
            let word = run.text@.subrange(k + 1, run.text@.len() as int);
            &&& after.lines.len() == s.lines.len() + 1
            &&& after.current().fragments.len() == 1
            &&& after.current().fragments[0] matches FragmentView::Text(t) && {
                &&& t.text.glyphs == word
                &&& t.content_rect.start_corner.inline == Length::spec_zero()
                &&& t.content_rect.size.inline == spec_width_of(&run.font, word)
            }
        }),
{
    lemma_last_word_is_wrapped_whole(run, s, k);
    let placed = run.spec_place(s, run.text@.subrange(0, k));
    assert(placed.wf());
    lemma_finish_line_starts_afresh(placed);
    let fresh = placed.spec_finish_line();
    assert(fresh.current() == fresh.levels[fresh.levels.len() - 1]);
    assert(placed.levels.len() == s.levels.len());
}

/// In wrap mode, an unbreakable word that is wider than the containing
/// block, in a run of its own after something else on the line, ends up alone
/// at the start of a line of its own: the line before is finished, and the
/// innermost level of the new line holds the text fragment of the whole
/// word and nothing else, at inline offset zero.
pub proof fn lemma_wide_word_stands_alone(run: &TextRun, s: StateView)
    requires
        s.wf(),
        run.text@.len() > 0,
        spec_unbreakable(run.text@, 0, run.text@.len() as int),
        s.inline_position@ > 0,
        spec_overflows(
            &run.font,
            run.text@,
            0,
            run.text@.len() as int,
            s.containing_block.inline_size.minus(s.inline_position),
        ),
    ensures
        ({
            let after = run.spec_layout_wrap_from(s, 0);
            &&& after.lines.len() == s.lines.len() + 1
            &&& after.current().fragments.len() == 1
            &&& after.current().fragments[0] matches FragmentView::Text(t) && {
                &&& t.text.glyphs == run.text@
                &&& t.content_rect.start_corner.inline == Length::spec_zero()
                &&& t.content_rect.size.inline == spec_width_of(&run.font, run.text@)
            }
        }),
{
    lemma_unbreakable_run_is_placed_whole(run, s);
    lemma_finish_line_starts_afresh(s);
    let fresh = s.spec_finish_line();
    assert(fresh.current() == fresh.levels[fresh.levels.len() - 1]);
    assert(fresh.levels.len() == s.levels.len());
}

} // verus!
