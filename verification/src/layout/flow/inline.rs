//! The inline formatting context: inline-level boxes and text, laid out
//! into lines.

use vstd::prelude::*;
use std::sync::Arc;

use crate::geom::flow_relative::Rect;
use crate::geom::flow_relative::Sides;
use crate::geom::flow_relative::Vec2;
use crate::graphics_engine::font::Font;
use crate::layout::ContainingBlock;
use crate::layout::flow::FlowChildren;
use crate::layout::flow::inline::text::spec_line_height;
use crate::layout::fragments::AnonymousFragment;
use crate::layout::fragments::AnonymousFragmentView;
use crate::layout::fragments::BoxFragment;
use crate::layout::fragments::BoxFragmentView;
use crate::layout::fragments::CollapsedBlockMargins;
use crate::layout::fragments::Fragment;
use crate::layout::fragments::FragmentView;
use crate::layout::fragments::lemma_anonymous_view;
use crate::layout::fragments::lemma_box_view;
use crate::layout::fragments::lemma_views_push;
use crate::layout::fragments::spec_translated_block;
use crate::layout::fragments::spec_views;
use crate::layout::fragments::translate_all_block;
use crate::layout::LayoutError;
use crate::layout::positioned::AbsolutelyPositionedBox;
use crate::layout::positioned::AbsolutelyPositionedFragment;
use crate::layout::positioned::FloatBox;
use crate::layout::relative_adjustement;
use crate::layout::spec_relative_adjustement;
use crate::style::properties::ComputedValues;
use crate::style::values::box_::DisplayOutside;
use crate::style::values::length::Length;
use crate::style::values::line::VerticalAlign;
use crate::style::values::text::TextAlign;
use crate::utils::share_arc;

pub mod text;

verus! {

/// An inline formatting context: the inline-level boxes that one block
/// container lays out into lines.
pub struct InlineFormattingContext {
    pub parent_style: Arc<ComputedValues>,
    /// The font of the container, which sets the baseline of each line.
    pub font: Font,
    pub inline_level_boxes: Vec<InlineLevelBox>,
}

pub enum InlineLevelBox {
    InlineBox(InlineBox),
    TextRun(TextRun),
    OutOfFlowAbsolutelyPositionedBox(AbsolutelyPositionedBox),
    OutOfFlowFloatBox(FloatBox),
    /// Replaced or atomic inline content. Layout does not take it.
    Atomic { style: Arc<ComputedValues> },
}

pub struct InlineBox {
    pub style: Arc<ComputedValues>,
    /// The font of the box.
    pub font: Font,
    /// Whether the box is the first piece of its element: a later piece has
    /// no inline-start padding, border or margin.
    pub first_fragment: bool,
    /// Whether the box is the last piece of its element: an earlier piece
    /// has no inline-end padding, border or margin.
    pub last_fragment: bool,
    pub children: Vec<InlineLevelBox>,
}

pub struct TextRun {
    pub parent_style: Arc<ComputedValues>,
    pub text: Vec<char>,
    pub font: Font,
}

/// One inline box, or the container itself, while its content is laid out:
/// what has been placed on the current line, and the metrics that place it.
pub struct InlineNestingLevelState {
    /// Fragments of the current line. They leave when the line is finished.
    pub fragments_so_far: Vec<Fragment>,
    /// Where this level starts on the line, relative to the containing
    /// block.
    pub inline_start: Length,
    /// Ascent of the font of this level.
    pub block_ascent: Length,
    /// Descent of the font of this level.
    pub block_descent: Length,
    /// The value of 1ex in the font of this level.
    pub block_ex: Length,
    /// How far the baseline of this level lies below the baseline of the
    /// line.
    pub block_baseline_adjustment: Length,
    /// The largest ascent and descent, half-leading included, of what has
    /// been placed on the line so far.
    pub max_block_ascent_of_fragments_so_far: Length,
    pub max_block_descent_of_fragments_so_far: Length,
}

/// An inline box that is open: it has started on this line or an earlier
/// one and has not ended yet.
pub struct PartialInlineBoxFragment {
    pub style: Arc<ComputedValues>,
    pub start_corner: Vec2<Length>,
    pub padding: Sides<Length>,
    pub border: Sides<Length>,
    pub margin: Sides<Length>,
    pub block_ascent: Length,
    pub block_descent: Length,
    pub last_box_tree_fragment: bool,
}

/// The finished lines, each an anonymous fragment, and where the next one
/// goes.
pub struct LinesBoxes {
    pub boxes: Vec<Fragment>,
    pub next_line_block_position: Length,
}

/// The state of one layout of an inline formatting context.
///
/// `levels` is the stack of nesting levels: the container's own at the
/// bottom, then one for each open inline box, the innermost on top.
/// `partial_inline_boxes_stack` holds the open boxes in the same order: the
/// box at index `k` lies between the levels `k` and `k + 1`.
pub struct InlineFormattingContextState {
    pub containing_block: ContainingBlock,
    pub line_boxes: LinesBoxes,
    pub text_align: TextAlign,
    /// Where the next fragment goes on the current line.
    pub inline_position: Length,
    pub partial_inline_boxes_stack: Vec<PartialInlineBoxFragment>,
    pub levels: Vec<InlineNestingLevelState>,
    pub tree_rank: usize,
    pub absolutely_positioned_fragments: Vec<AbsolutelyPositionedFragment>,
}

/// A nesting level as a value.
pub struct LevelView {
    pub fragments: Seq<FragmentView>,
    pub inline_start: Length,
    pub block_ascent: Length,
    pub block_descent: Length,
    pub block_ex: Length,
    pub block_baseline_adjustment: Length,
    pub max_block_ascent: Length,
    pub max_block_descent: Length,
}

/// A layout state as a value.
pub struct StateView {
    pub containing_block: ContainingBlock,
    pub lines: Seq<FragmentView>,
    pub next_line_block_position: Length,
    pub text_align: TextAlign,
    pub inline_position: Length,
    pub partials: Seq<PartialInlineBoxFragment>,
    pub levels: Seq<LevelView>,
    pub tree_rank: usize,
    pub absolutes: Seq<AbsolutelyPositionedFragment>,
}

impl View for InlineNestingLevelState {
    type V = LevelView;

    open spec fn view(&self) -> LevelView {
        LevelView {
            fragments: spec_views(self.fragments_so_far@),
            inline_start: self.inline_start,
            block_ascent: self.block_ascent,
            block_descent: self.block_descent,
            block_ex: self.block_ex,
            block_baseline_adjustment: self.block_baseline_adjustment,
            max_block_ascent: self.max_block_ascent_of_fragments_so_far,
            max_block_descent: self.max_block_descent_of_fragments_so_far,
        }
    }
}

/// The levels of `levels` as values, in order.
pub open spec fn spec_level_views(levels: Seq<InlineNestingLevelState>) -> Seq<LevelView> {
    Seq::new(levels.len(), |i: int| levels[i]@)
}

impl View for InlineFormattingContextState {
    type V = StateView;

    open spec fn view(&self) -> StateView {
        StateView {
            containing_block: self.containing_block,
            lines: spec_views(self.line_boxes.boxes@),
            next_line_block_position: self.line_boxes.next_line_block_position,
            text_align: self.text_align,
            inline_position: self.inline_position,
            partials: self.partial_inline_boxes_stack@,
            levels: spec_level_views(self.levels@),
            tree_rank: self.tree_rank,
            absolutes: self.absolutely_positioned_fragments@,
        }
    }
}

/// `sides` without its inline-start side.
pub open spec fn spec_without_inline_start(sides: Sides<Length>) -> Sides<Length> {
    Sides { inline_start: Length::spec_zero(), ..sides }
}

/// `sides` without its inline-end side.
pub open spec fn spec_without_inline_end(sides: Sides<Length>) -> Sides<Length> {
    Sides { inline_end: Length::spec_zero(), ..sides }
}

impl PartialInlineBoxFragment {
    /// Whether the piece that is closed now is the last of the box: it is
    /// the last piece of its element and is not closed by a line break.
    pub open spec fn spec_closes_last(self, at_line_break: bool) -> bool {
        self.last_box_tree_fragment && !at_line_break
    }

    /// The inline-end padding, border and margin that the last piece of the
    /// box adds to the line.
    pub open spec fn spec_inline_end_edges(self) -> Length {
        self.padding.inline_end.plus(self.border.inline_end).plus(self.margin.inline_end)
    }

    /// The box fragment that closing the box gives: what `child` has
    /// gathered, as wide as the line has grown since the level began and as
    /// high as the font of the box, set on the baseline of `parent`. Only the
    /// last piece keeps its inline-end padding, border and margin.
    pub open spec fn spec_box_fragment(
        self,
        parent: LevelView,
        child: LevelView,
        inline_position: Length,
        at_line_break: bool,
    ) -> BoxFragmentView {
        let last = self.spec_closes_last(at_line_break);
        BoxFragmentView {
            style: self.style,
            children: child.fragments,
            content_rect: Rect {
                start_corner: Vec2 {
                    inline: self.start_corner.inline,
                    block: self.start_corner.block.plus(
                        parent.block_ascent.minus(self.block_ascent),
                    ),
                },
                size: Vec2 {
                    inline: inline_position.minus(child.inline_start),
                    block: self.block_ascent.plus(self.block_descent),
                },
            },
            padding: if last {
                self.padding
            } else {
                spec_without_inline_end(self.padding)
            },
            border: if last {
                self.border
            } else {
                spec_without_inline_end(self.border)
            },
            margin: if last {
                self.margin
            } else {
                spec_without_inline_end(self.margin)
            },
            block_margins_collapsed_with_children: CollapsedBlockMargins::spec_zero(),
        }
    }

    /// Where the line stands after the box is closed.
    pub open spec fn spec_position_after(self, inline_position: Length, at_line_break: bool)
        -> Length {
        if self.spec_closes_last(at_line_break) {
            inline_position.plus(self.spec_inline_end_edges())
        } else {
            inline_position
        }
    }

    /// The parent level after the box is closed: it has the box fragment,
    /// and its largest ascent and descent cover those of the child.
    pub open spec fn spec_parent_after(
        self,
        parent: LevelView,
        child: LevelView,
        inline_position: Length,
        at_line_break: bool,
    ) -> LevelView {
        LevelView {
            fragments: parent.fragments.push(
                FragmentView::Box(
                    self.spec_box_fragment(parent, child, inline_position, at_line_break),
                ),
            ),
            max_block_ascent: parent.max_block_ascent.spec_max(child.max_block_ascent),
            max_block_descent: parent.max_block_descent.spec_max(child.max_block_descent),
            ..parent
        }
    }

    /// The open box as it goes on to the next line: at the start of the
    /// line, without inline-start padding, border and margin.
    pub open spec fn spec_continued(self) -> PartialInlineBoxFragment {
        PartialInlineBoxFragment {
            start_corner: Vec2 { inline: Length::spec_zero(), block: self.start_corner.block },
            padding: spec_without_inline_start(self.padding),
            border: spec_without_inline_start(self.border),
            margin: spec_without_inline_start(self.margin),
            ..self
        }
    }
}

impl LevelView {
    /// The level as it goes on to the next line: empty, at the start of the
    /// line.
    pub open spec fn spec_continued(self) -> LevelView {
        LevelView {
            fragments: Seq::empty(),
            inline_start: Length::spec_zero(),
            max_block_ascent: Length::spec_zero(),
            max_block_descent: Length::spec_zero(),
            ..self
        }
    }
}

/// Closes the open box at index `j` for a line break: its fragment goes to
/// level `j`, and the box and level `j + 1` go on to the next line.
pub open spec fn spec_close_step(
    levels: Seq<LevelView>,
    partials: Seq<PartialInlineBoxFragment>,
    inline_position: Length,
    j: int,
) -> (Seq<LevelView>, Seq<PartialInlineBoxFragment>) {
    (
        levels.update(
            j,
            partials[j].spec_parent_after(levels[j], levels[j + 1], inline_position, true),
        ).update(j + 1, levels[j + 1].spec_continued()),
        partials.update(j, partials[j].spec_continued()),
    )
}

/// Closes the open boxes below index `k` for a line break, the innermost
/// first.
pub open spec fn spec_close_all(
    levels: Seq<LevelView>,
    partials: Seq<PartialInlineBoxFragment>,
    inline_position: Length,
    k: int,
) -> (Seq<LevelView>, Seq<PartialInlineBoxFragment>)
    decreases k,
{
    if k <= 0 {
        (levels, partials)
    } else {
        let (l, p) = spec_close_step(levels, partials, inline_position, k - 1);
        spec_close_all(l, p, inline_position, k - 1)
    }
}

impl StateView {
    /// One level more than open boxes.
    pub open spec fn wf(self) -> bool {
        self.levels.len() == self.partials.len() + 1
    }

    pub open spec fn current(self) -> LevelView {
        self.levels.last()
    }

    /// The block size of the line that `root` holds: the largest ascent and
    /// the largest descent on it.
    pub open spec fn spec_line_block_size(root: LevelView) -> Length {
        root.max_block_ascent.plus(root.max_block_descent)
    }

    /// The line that the outermost level `root` holds: as wide as the
    /// containing block and as high as its largest ascent and descent, placed
    /// below the lines before it, with the free space divided by the text
    /// alignment. Each fragment on it is moved down by what the largest ascent
    /// exceeds the ascent of the container's font, so that all stand on one
    /// baseline.
    pub open spec fn spec_line_fragment(self, root: LevelView) -> FragmentView {
        spec_line(
            root,
            self.containing_block,
            self.inline_position,
            self.text_align,
            self.next_line_block_position,
        )
    }

    /// Finishes the current line: every open box is closed for a line break
    /// and goes on to the next line, what the outermost level holds becomes a
    /// line, and the next line starts empty below it.
    pub open spec fn spec_finish_line(self) -> StateView {
        let (levels, partials) = spec_close_all(
            self.levels,
            self.partials,
            self.inline_position,
            self.partials.len() as int,
        );
        let root = levels[0];
        StateView {
            lines: self.lines.push(self.spec_line_fragment(root)),
            next_line_block_position: self.next_line_block_position.plus(
                StateView::spec_line_block_size(root),
            ),
            inline_position: Length::spec_zero(),
            partials,
            levels: levels.update(0, root.spec_continued()),
            ..self
        }
    }

    /// Closes the innermost open box because its content has ended.
    pub open spec fn spec_end_box(self) -> StateView {
        let n = self.partials.len() as int;
        let partial = self.partials[n - 1];
        StateView {
            inline_position: partial.spec_position_after(self.inline_position, false),
            partials: self.partials.take(n - 1),
            levels: self.levels.take(n).update(
                n - 1,
                partial.spec_parent_after(
                    self.levels[n - 1],
                    self.levels[n],
                    self.inline_position,
                    false,
                ),
            ),
            ..self
        }
    }

    /// The block sizes of `lines` added up, from the first to the last.
    pub open spec fn spec_block_sum(lines: Seq<FragmentView>) -> Length
        decreases lines.len(),
    {
        if lines.len() == 0 {
            Length::spec_zero()
        } else {
            StateView::spec_block_sum(lines.drop_last()).plus(lines.last().rect().size.block)
        }
    }

    /// The block sizes of `lines` added up as whole numbers, without end.
    pub open spec fn spec_block_total(lines: Seq<FragmentView>) -> int
        decreases lines.len(),
    {
        if lines.len() == 0 {
            0
        } else {
            StateView::spec_block_total(lines.drop_last()) + lines.last().rect().size.block@
        }
    }

    /// Every finished line is an anonymous fragment that is not negative in
    /// height, the next line goes where their block sizes add up to, and no
    /// level has seen an ascent or a descent below zero.
    pub open spec fn lines_consistent(self) -> bool {
        &&& forall|i: int| 0 <= i < self.lines.len() ==> (#[trigger] self.lines[i]) is Anonymous
        &&& forall|i: int|
            0 <= i < self.lines.len() ==> (#[trigger] self.lines[i]).rect().size.block@ >= 0
        &&& self.next_line_block_position == StateView::spec_block_sum(self.lines)
        &&& spec_heights_are_not_negative(self.levels)
    }
}

/// Whether no level has seen an ascent or a descent below zero.
pub open spec fn spec_heights_are_not_negative(levels: Seq<LevelView>) -> bool {
    forall|i: int|
        0 <= i < levels.len() ==> (#[trigger] levels[i]).max_block_ascent@ >= 0
            && levels[i].max_block_descent@ >= 0
}

/// Closing open boxes for a line break keeps the number of levels and
/// leaves no level with an ascent or a descent below zero that had none.
pub proof fn lemma_close_all_keeps_heights(
    levels: Seq<LevelView>,
    partials: Seq<PartialInlineBoxFragment>,
    inline_position: Length,
    k: int,
)
    requires
        levels.len() == partials.len() + 1,
        0 <= k <= partials.len(),
        spec_heights_are_not_negative(levels),
    ensures
        spec_close_all(levels, partials, inline_position, k).0.len() == levels.len(),
        spec_close_all(levels, partials, inline_position, k).1.len() == partials.len(),
        spec_heights_are_not_negative(spec_close_all(levels, partials, inline_position, k).0),
    decreases k,
{
    if k > 0 {
        let (stepped, open) = spec_close_step(levels, partials, inline_position, k - 1);
        assert(spec_heights_are_not_negative(stepped)) by {
            assert forall|i: int| 0 <= i < stepped.len() implies (#[trigger] stepped[i]).max_block_ascent@
                >= 0 && stepped[i].max_block_descent@ >= 0 by {
                assert(levels[k - 1].max_block_ascent@ >= 0 && levels[k].max_block_ascent@ >= 0);
                assert(levels[k - 1].max_block_descent@ >= 0 && levels[k].max_block_descent@ >= 0);
                if i != k - 1 && i != k {
                    assert(stepped[i] == levels[i]);
                }
            }
        }
        lemma_close_all_keeps_heights(stepped, open, inline_position, k - 1);
    }
}

/// The block sizes of lines that are not negative in height add up to
/// their sum as whole numbers, or to the largest length where the sum is
/// larger.
pub proof fn lemma_block_sum_is_the_sum(lines: Seq<FragmentView>)
    requires
        forall|i: int| 0 <= i < lines.len() ==> (#[trigger] lines[i]).rect().size.block@ >= 0,
    ensures
        0 <= StateView::spec_block_total(lines),
        StateView::spec_block_sum(lines)@ == if StateView::spec_block_total(lines) > i64::MAX {
            i64::MAX as int
        } else {
            StateView::spec_block_total(lines)
        },
    decreases lines.len(),
{
    if lines.len() > 0 {
        let front = lines.drop_last();
        assert forall|i: int| 0 <= i < front.len() implies (#[trigger] front[i]).rect().size.block@
            >= 0 by {
            assert(front[i] == lines[i]);
        }
        lemma_block_sum_is_the_sum(front);
        assert(lines.last() == lines[lines.len() - 1]);
    }
}

impl InlineNestingLevelState {
    /// A level that holds nothing, with metrics of zero.
    pub fn empty() -> (r: InlineNestingLevelState)
        ensures
            r.fragments_so_far@.len() == 0,
            r@ == (LevelView {
                fragments: Seq::empty(),
                inline_start: Length::spec_zero(),
                block_ascent: Length::spec_zero(),
                block_descent: Length::spec_zero(),
                block_ex: Length::spec_zero(),
                block_baseline_adjustment: Length::spec_zero(),
                max_block_ascent: Length::spec_zero(),
                max_block_descent: Length::spec_zero(),
            }),
    {
        let r = InlineNestingLevelState::zeroed();
        assert(r@.fragments =~= Seq::<FragmentView>::empty());
        r
    }

    fn zeroed() -> (r: InlineNestingLevelState)
        ensures
            r.fragments_so_far@.len() == 0,
            r.inline_start == Length::spec_zero(),
            r.block_ascent == Length::spec_zero(),
            r.block_descent == Length::spec_zero(),
            r.block_ex == Length::spec_zero(),
            r.block_baseline_adjustment == Length::spec_zero(),
            r.max_block_ascent_of_fragments_so_far == Length::spec_zero(),
            r.max_block_descent_of_fragments_so_far == Length::spec_zero(),
    {
        InlineNestingLevelState {
            fragments_so_far: Vec::new(),
            inline_start: Length::zero(),
            block_ascent: Length::zero(),
            block_descent: Length::zero(),
            block_ex: Length::zero(),
            block_baseline_adjustment: Length::zero(),
            max_block_ascent_of_fragments_so_far: Length::zero(),
            max_block_descent_of_fragments_so_far: Length::zero(),
        }
    }

    /// Starts the next line: empty, at the start of the line, with no ascent
    /// or descent seen yet.
    pub fn continue_on_next_line(&mut self)
        ensures
            final(self)@ == old(self)@.spec_continued(),
    {
        self.fragments_so_far = Vec::new();
        self.inline_start = Length::zero();
        self.max_block_ascent_of_fragments_so_far = Length::zero();
        self.max_block_descent_of_fragments_so_far = Length::zero();
        assert(self@.fragments =~= Seq::<FragmentView>::empty());
    }
}

impl PartialInlineBoxFragment {
    /// Closes the box: makes a box fragment of what `child` has gathered
    /// and gives it to `parent`. The last piece of the box adds its inline-end
    /// padding, border and margin to the line; a piece that a line break closes
    /// has none.
    pub fn finish_layout(
        &self,
        parent: &mut InlineNestingLevelState,
        child: &mut InlineNestingLevelState,
        inline_position: &mut Length,
        at_line_break: bool,
    )
        ensures
            final(parent)@ == self.spec_parent_after(
                old(parent)@,
                old(child)@,
                *old(inline_position),
                at_line_break,
            ),
            final(child)@ == (LevelView { fragments: Seq::empty(), ..old(child)@ }),
            final(child).fragments_so_far@.len() == 0,
            *final(inline_position) == self.spec_position_after(
                *old(inline_position),
                at_line_break,
            ),
    {
        // Boxes of different font sizes stand on one baseline.
        let block_adjustment = parent.block_ascent - self.block_ascent;
        let mut start_corner = self.start_corner;
        start_corner.block = start_corner.block + block_adjustment;
        let mut children: Vec<Fragment> = Vec::new();
        core::mem::swap(&mut children, &mut child.fragments_so_far);
        let mut fragment = BoxFragment {
            style: share_arc(&self.style),
            children,
            content_rect: Rect {
                size: Vec2 {
                    inline: *inline_position - child.inline_start,
                    // The strut: the height of the font of the box.
                    block: self.block_ascent + self.block_descent,
                },
                start_corner,
            },
            padding: self.padding,
            border: self.border,
            margin: self.margin,
            block_margins_collapsed_with_children: CollapsedBlockMargins::zero(),
        };
        let last_fragment = self.last_box_tree_fragment && !at_line_break;
        if last_fragment {
            *inline_position = *inline_position + (fragment.padding.inline_end
                + fragment.border.inline_end + fragment.margin.inline_end);
        } else {
            fragment.padding.inline_end = Length::zero();
            fragment.border.inline_end = Length::zero();
            fragment.margin.inline_end = Length::zero();
        }
        parent.max_block_ascent_of_fragments_so_far.max_assign(
            child.max_block_ascent_of_fragments_so_far,
        );
        parent.max_block_descent_of_fragments_so_far.max_assign(
            child.max_block_descent_of_fragments_so_far,
        );
        proof {
            lemma_box_view(fragment);
            lemma_views_push(parent.fragments_so_far@, Fragment::Box(fragment));
            assert(child@.fragments =~= Seq::<FragmentView>::empty());
        }
        parent.fragments_so_far.push(Fragment::Box(fragment));
    }

    /// Takes the box on to the next line.
    pub fn continue_on_next_line(&mut self)
        ensures
            *final(self) == old(self).spec_continued(),
    {
        self.start_corner.inline = Length::zero();
        self.padding.inline_start = Length::zero();
        self.border.inline_start = Length::zero();
        self.margin.inline_start = Length::zero();
    }
}

impl LinesBoxes {
    /// Makes a line of what `top_nesting_level` holds and puts it below the
    /// lines before it. The level is left empty, with no ascent or descent.
    pub fn finish_line(
        &mut self,
        top_nesting_level: &mut InlineNestingLevelState,
        containing_block: &ContainingBlock,
        inline_position: &Length,
        text_align: &TextAlign,
    )
        ensures
            spec_views(final(self).boxes@) == spec_views(old(self).boxes@).push(
                spec_line(
                    old(top_nesting_level)@,
                    *containing_block,
                    *inline_position,
                    *text_align,
                    old(self).next_line_block_position,
                ),
            ),
            final(self).next_line_block_position == old(self).next_line_block_position.plus(
                StateView::spec_line_block_size(old(top_nesting_level)@),
            ),
            final(top_nesting_level)@ == (LevelView {
                fragments: Seq::empty(),
                max_block_ascent: Length::spec_zero(),
                max_block_descent: Length::spec_zero(),
                ..old(top_nesting_level)@
            }),
            final(top_nesting_level).fragments_so_far@.len() == 0,
    {
        // What the line has left of the width of the containing block.
        let inline_delta = containing_block.inline_size - *inline_position;
        let start_corner = Vec2 {
            inline: inline_delta.scale(text_align.start_share()),
            block: self.next_line_block_position,
        };
        let max_block_ascent = top_nesting_level.max_block_ascent_of_fragments_so_far;
        top_nesting_level.max_block_ascent_of_fragments_so_far = Length::zero();
        let max_block_descent = top_nesting_level.max_block_descent_of_fragments_so_far;
        top_nesting_level.max_block_descent_of_fragments_so_far = Length::zero();
        let size = Vec2 {
            inline: containing_block.inline_size,
            block: max_block_ascent + max_block_descent,
        };
        self.next_line_block_position = self.next_line_block_position + size.block;

        // Fragments that rise above the container's font push the baseline
        // of the line down.
        let block_adjustment = max_block_ascent - top_nesting_level.block_ascent;
        translate_all_block(&mut top_nesting_level.fragments_so_far, block_adjustment);

        let mut children: Vec<Fragment> = Vec::new();
        core::mem::swap(&mut children, &mut top_nesting_level.fragments_so_far);
        let line = AnonymousFragment {
            children,
            rect: Rect { start_corner, size },
            mode: containing_block.mode,
        };
        proof {
            lemma_anonymous_view(line);
            lemma_views_push(self.boxes@, Fragment::Anonymous(line));
            assert(top_nesting_level@.fragments =~= Seq::<FragmentView>::empty());
        }
        self.boxes.push(Fragment::Anonymous(line));
    }
}

impl InlineFormattingContextState {
    /// One level more than open boxes.
    pub open spec fn wf(&self) -> bool {
        self.levels@.len() == self.partial_inline_boxes_stack@.len() + 1
    }

    /// Finishes the current line and starts the next: every open box is
    /// closed for a line break, the innermost first, and goes on to the next
    /// line; what the outermost level holds becomes a line.
    pub fn finish_line(&mut self)
        requires
            old(self).wf(),
        ensures
            final(self)@ == old(self)@.spec_finish_line(),
            final(self).wf(),
            old(self)@.lines_consistent() ==> final(self)@.lines_consistent(),
            final(self).partial_inline_boxes_stack@.len()
                == old(self).partial_inline_boxes_stack@.len(),
    {
        let ghost n = self.partial_inline_boxes_stack@.len() as int;
        let mut j: usize = self.partial_inline_boxes_stack.len();
        while j > 0
            invariant
                self.wf(),
                j <= self.partial_inline_boxes_stack@.len() == n,
                self@.lines == old(self)@.lines,
                self.containing_block == old(self).containing_block,
                self.line_boxes == old(self).line_boxes,
                self.text_align == old(self).text_align,
                self.inline_position == old(self).inline_position,
                self.tree_rank == old(self).tree_rank,
                self.absolutely_positioned_fragments == old(self).absolutely_positioned_fragments,
                spec_close_all(self@.levels, self@.partials, self.inline_position, j as int)
                    == spec_close_all(
                    old(self)@.levels,
                    old(self)@.partials,
                    old(self).inline_position,
                    n,
                ),
            decreases j,
        {
            let ghost before = self@;
            j -= 1;
            let mut child = InlineNestingLevelState::empty();
            core::mem::swap(&mut child, &mut self.levels[j + 1]);
            self.partial_inline_boxes_stack[j].finish_layout(
                &mut self.levels[j],
                &mut child,
                &mut self.inline_position,
                true,
            );
            child.continue_on_next_line();
            self.partial_inline_boxes_stack[j].continue_on_next_line();
            core::mem::swap(&mut child, &mut self.levels[j + 1]);
            proof {
                let (l, p) = spec_close_step(
                    before.levels,
                    before.partials,
                    before.inline_position,
                    j as int,
                );
                assert(self@.levels =~= l);
                assert(self@.partials =~= p);
            }
        }
        let ghost closed = self@;
        self.levels[0].inline_start = Length::zero();
        self.line_boxes.finish_line(
            &mut self.levels[0],
            &self.containing_block,
            &self.inline_position,
            &self.text_align,
        );
        self.inline_position = Length::zero();
        proof {
            assert(self@.levels =~= closed.levels.update(0, closed.levels[0].spec_continued()));
            if old(self)@.lines_consistent() {
                lemma_finish_line_keeps_lines_consistent(old(self)@);
            }
        }
    }
}

/// Finishing a line keeps the finished lines in step with the place of the
/// next line: one anonymous fragment more, which is not negative in height,
/// and the next line as much further down as that fragment is high.
pub proof fn lemma_finish_line_keeps_lines_consistent(s: StateView)
    requires
        s.wf(),
        s.lines_consistent(),
    ensures
        s.spec_finish_line().lines_consistent(),
        s.spec_finish_line().lines.len() == s.lines.len() + 1,
{
    let after = s.spec_finish_line();
    let n = s.partials.len() as int;
    lemma_close_all_keeps_heights(s.levels, s.partials, s.inline_position, n);
    let closed = spec_close_all(s.levels, s.partials, s.inline_position, n).0;
    let root = closed[0];
    assert(root.max_block_ascent@ >= 0 && root.max_block_descent@ >= 0);
    assert(after.lines.drop_last() =~= s.lines);
    assert(after.lines.last().rect().size.block == StateView::spec_line_block_size(root));
    assert forall|i: int| 0 <= i < after.lines.len() implies (#[trigger] after.lines[i])
        is Anonymous && after.lines[i].rect().size.block@ >= 0 by {
        if i < s.lines.len() {
            assert(after.lines[i] == s.lines[i]);
        }
    }
    assert forall|i: int| 0 <= i < after.levels.len() implies (#[trigger] after.levels[i]).max_block_ascent@
        >= 0 && after.levels[i].max_block_descent@ >= 0 by {
        if i != 0 {
            assert(after.levels[i] == closed[i]);
        }
    }
}

/// The line that the outermost level `root` holds, for a line at
/// `inline_position` that goes at `block_position`.
pub open spec fn spec_line(
    root: LevelView,
    containing_block: ContainingBlock,
    inline_position: Length,
    text_align: TextAlign,
    block_position: Length,
) -> FragmentView {
    FragmentView::Anonymous(
        AnonymousFragmentView {
            rect: Rect {
                start_corner: Vec2 {
                    inline: containing_block.inline_size.minus(inline_position).spec_scale(
                        text_align.spec_start_share(),
                    ),
                    block: block_position,
                },
                size: Vec2 {
                    inline: containing_block.inline_size,
                    block: StateView::spec_line_block_size(root),
                },
            },
            children: spec_translated_block(
                root.fragments,
                root.max_block_ascent.minus(root.block_ascent),
            ),
            mode: containing_block.mode,
        },
    )
}

/// How far below the baseline of its parent the baseline of an inline box
/// of `style` lies, by its `vertical-align`: `sub` and `super` move it by half
/// the ascent of the parent; `middle` sets the middle of the box, which
/// lies half of what its ascent exceeds its descent by above its baseline, on
/// the baseline of the parent raised by half of the parent's 1ex; a length
/// moves it up by itself, a percentage by as much of the line height of the
/// box. Every other value leaves it on the baseline.
pub open spec fn spec_baseline_shift(
    style: &ComputedValues,
    block_ascent: Length,
    block_descent: Length,
    parent: LevelView,
) -> Length {
    match style.line_reset.vertical_align {
        VerticalAlign::Sub => parent.block_ascent.spec_half(),
        VerticalAlign::Super => parent.block_ascent.spec_neg().spec_half(),
        VerticalAlign::Middle => block_ascent.minus(block_descent).spec_half().minus(
            parent.block_ex.spec_half(),
        ),
        VerticalAlign::Length(shift) => shift.spec_neg(),
        VerticalAlign::Percentage(shift_percent) => spec_line_height(style).spec_neg().spec_scale(
            shift_percent.thousandths as int,
        ),
        _ => Length::spec_zero(),
    }
}

pub fn calculate_baseline_shift(
    style: &ComputedValues,
    block_ascent: &Length,
    block_descent: &Length,
    parent_nesting_level: &InlineNestingLevelState,
) -> (r: Length)
    ensures
        r == spec_baseline_shift(style, *block_ascent, *block_descent, parent_nesting_level@),
{
    match style.line_reset.vertical_align {
        VerticalAlign::Sub => parent_nesting_level.block_ascent.half(),
        VerticalAlign::Super => parent_nesting_level.block_ascent.neg().half(),
        VerticalAlign::Middle => {
            // From the baseline of the box up to its middle, then down to
            // half of 1ex above the baseline of the parent.
            (*block_ascent - *block_descent).half() - parent_nesting_level.block_ex.half()
        },
        VerticalAlign::Length(shift) => shift.neg(),
        VerticalAlign::Percentage(shift_percent) => {
            // Relative to the line height of the box itself.
            let line_height = style.line_inherited.line_height.percentage_or_number_relative_to(
                style.font.font_size.0,
            );
            line_height.neg() * shift_percent
        },
        _ => Length::zero(),
    }
}

impl InlineBox {
    /// The padding, border and margin of the box, percentages taken of the
    /// inline size of the containing block and `auto` margins as zero. A box
    /// that is not the first piece of its element has no inline-start side.
    pub open spec fn spec_edges(&self, inline_size: Length) -> (
        Sides<Length>,
        Sides<Length>,
        Sides<Length>,
    ) {
        let padding = self.style.spec_padding().spec_percentages_relative_to(inline_size);
        let border = self.style.spec_border_width().spec_percentages_relative_to(inline_size);
        let margin = self.style.spec_margin().spec_percentages_relative_to(
            inline_size,
        ).spec_auto_is_zero();
        if self.first_fragment {
            (padding, border, margin)
        } else {
            (
                spec_without_inline_start(padding),
                spec_without_inline_start(border),
                spec_without_inline_start(margin),
            )
        }
    }

    /// The state after the box is opened: the line is longer by the
    /// inline-start padding, border and margin of the box, the box is open,
    /// and a new level gathers its content. The box starts where the line now
    /// stands, on a baseline that its `vertical-align` sets against the
    /// baseline of the level around it, moved by its relative positioning.
    pub open spec fn spec_start_layout(&self, s: StateView) -> StateView {
        let current = s.current();
        let ascent = self.font.0.ascent;
        let descent = self.font.0.descent;
        let shift = spec_baseline_shift(&*self.style, ascent, descent, current);
        let (padding, border, margin) = self.spec_edges(s.containing_block.inline_size);
        let position = s.inline_position.plus(
            padding.inline_start.plus(border.inline_start).plus(margin.inline_start),
        );
        StateView {
            inline_position: position,
            partials: s.partials.push(
                PartialInlineBoxFragment {
                    style: self.style,
                    start_corner: (Vec2 {
                        block: shift,
                        inline: position.minus(current.inline_start),
                    }).spec_plus(
                        spec_relative_adjustement(
                            &*self.style,
                            s.containing_block.inline_size,
                            s.containing_block.block_size,
                        ),
                    ),
                    padding,
                    border,
                    margin,
                    block_ascent: ascent,
                    block_descent: descent,
                    last_box_tree_fragment: self.last_fragment,
                },
            ),
            levels: s.levels.push(
                LevelView {
                    fragments: Seq::empty(),
                    inline_start: position,
                    block_ascent: ascent,
                    block_descent: descent,
                    block_ex: self.font.0.size.spec_half(),
                    block_baseline_adjustment: current.block_baseline_adjustment.plus(shift),
                    max_block_ascent: Length::spec_zero(),
                    max_block_descent: Length::spec_zero(),
                },
            ),
            ..s
        }
    }

    /// Opens the box on the current line.
    pub fn start_layout(&self, ifc: &mut InlineFormattingContextState)
        requires
            old(ifc).wf(),
        ensures
            final(ifc)@ == self.spec_start_layout(old(ifc)@),
            final(ifc).wf(),
            old(ifc)@.lines_consistent() ==> final(ifc)@.lines_consistent(),
    {
        let ghost before = ifc@;
        let top: usize = ifc.levels.len() - 1;
        let block_ascent = self.font.get_ascent();
        let block_descent = self.font.get_descent();
        let block_ex = self.font.get_ex();
        let block_baseline_shift = calculate_baseline_shift(
            &*self.style,
            &block_ascent,
            &block_descent,
            &ifc.levels[top],
        );
        let block_baseline_adjustment = ifc.levels[top].block_baseline_adjustment
            + block_baseline_shift;
        let cbis = ifc.containing_block.inline_size;
        let mut padding = self.style.padding().percentages_relative_to(cbis);
        let mut border = self.style.border_width().percentages_relative_to(cbis);
        let mut margin = self.style.margin().percentages_relative_to(cbis).auto_is(Length::zero);
        if self.first_fragment {
            ifc.inline_position = ifc.inline_position + (padding.inline_start
                + border.inline_start + margin.inline_start);
        } else {
            padding.inline_start = Length::zero();
            border.inline_start = Length::zero();
            margin.inline_start = Length::zero();
            assert(ifc.inline_position == ifc.inline_position.plus(Length::spec_zero()));
        }
        let start_corner = (Vec2 {
            block: block_baseline_shift,
            inline: ifc.inline_position - ifc.levels[top].inline_start,
        }).plus(
            &relative_adjustement(
                &*self.style,
                ifc.containing_block.inline_size,
                ifc.containing_block.block_size,
            ),
        );
        ifc.partial_inline_boxes_stack.push(
            PartialInlineBoxFragment {
                style: share_arc(&self.style),
                start_corner,
                padding,
                border,
                margin,
                block_ascent,
                block_descent,
                last_box_tree_fragment: self.last_fragment,
            },
        );
        ifc.levels.push(
            InlineNestingLevelState {
                fragments_so_far: Vec::new(),
                inline_start: ifc.inline_position,
                block_ascent,
                block_descent,
                block_ex,
                block_baseline_adjustment,
                max_block_ascent_of_fragments_so_far: Length::zero(),
                max_block_descent_of_fragments_so_far: Length::zero(),
            },
        );
        proof {
            let after = self.spec_start_layout(before);
            assert(ifc@.levels.last().fragments =~= Seq::<FragmentView>::empty());
            assert(ifc@.levels =~= after.levels);
            assert(ifc@.partials =~= after.partials);
        }
    }
}

impl AbsolutelyPositionedBox {
    /// The state after the box is handed on: it is noted with the place
    /// that it would have had in the flow, at the end of the line if it is
    /// inline-level and at the start if it is block-level, on the line that is
    /// being filled. The flow itself does not change.
    pub open spec fn spec_place(&self, s: StateView) -> StateView {
        StateView {
            absolutes: s.absolutes.push(
                AbsolutelyPositionedFragment {
                    style: self.style,
                    tree_rank: s.tree_rank,
                    static_start_corner: Vec2 {
                        inline: match self.outside {
                            DisplayOutside::Inline => s.inline_position,
                            DisplayOutside::Block => Length::spec_zero(),
                        },
                        block: s.next_line_block_position,
                    },
                },
            ),
            ..s
        }
    }
}

impl InlineFormattingContextState {
    /// Closes the innermost open box, whose content has ended, and goes on
    /// with the level around it.
    pub fn end_box(&mut self)
        requires
            old(self).wf(),
            old(self).partial_inline_boxes_stack@.len() > 0,
        ensures
            final(self)@ == old(self)@.spec_end_box(),
            final(self).wf(),
            old(self)@.lines_consistent() ==> final(self)@.lines_consistent(),
    {
        let ghost before = self@;
        let partial = self.partial_inline_boxes_stack.pop().unwrap();
        let mut child = self.levels.pop().unwrap();
        let top: usize = self.levels.len() - 1;
        partial.finish_layout(&mut self.levels[top], &mut child, &mut self.inline_position, false);
        proof {
            let after = before.spec_end_box();
            assert(self@.levels =~= after.levels);
            assert(self@.partials =~= after.partials);
        }
    }

    /// Hands an absolutely positioned box on with its place in the flow.
    pub fn place_absolute(&mut self, box_: &AbsolutelyPositionedBox)
        requires
            old(self).wf(),
        ensures
            final(self)@ == box_.spec_place(old(self)@),
            final(self).wf(),
            old(self)@.lines_consistent() ==> final(self)@.lines_consistent(),
    {
        let initial_start_corner = Vec2 {
            inline: match box_.outside {
                DisplayOutside::Inline => self.inline_position,
                DisplayOutside::Block => Length::zero(),
            },
            block: self.line_boxes.next_line_block_position,
        };
        let fragment = box_.layout(initial_start_corner, self.tree_rank);
        self.absolutely_positioned_fragments.push(fragment);
    }
}

/// Why the boxes from index `from` on cannot be laid out, if they cannot:
/// the first obstacle in document order. A text run whose font lacks one of
/// its glyphs cannot be measured; replaced or atomic content is not taken.
pub open spec fn spec_first_problem(boxes: Seq<InlineLevelBox>, from: int) -> Option<LayoutError>
    decreases boxes, boxes.len() - from,
{
    if from < 0 || from >= boxes.len() {
        None
    } else {
        let here = match boxes[from] {
            InlineLevelBox::InlineBox(inline) => spec_first_problem(inline.children@, 0),
            InlineLevelBox::TextRun(run) => if run.spec_measurable() {
                None
            } else {
                Some(LayoutError::MeasurementFailure)
            },
            InlineLevelBox::Atomic { .. } => Some(LayoutError::UnsupportedContent),
            _ => None,
        };
        match here {
            Some(problem) => Some(problem),
            None => spec_first_problem(boxes, from + 1),
        }
    }
}

/// The state after `box_` is laid out: an inline box is opened, its
/// children are laid out, and it is closed; a text run is laid out into as
/// many lines as it takes; an absolutely positioned box is handed on; a float
/// is passed over.
pub open spec fn spec_layout_box(box_: InlineLevelBox, s: StateView) -> StateView
    decreases box_, 0int,
{
    match box_ {
        InlineLevelBox::InlineBox(inline) => spec_layout_boxes(
            inline.children@,
            0,
            inline.spec_start_layout(s),
        ).spec_end_box(),
        InlineLevelBox::TextRun(run) => run.spec_layout(s),
        InlineLevelBox::OutOfFlowAbsolutelyPositionedBox(absolute) => absolute.spec_place(s),
        InlineLevelBox::OutOfFlowFloatBox(_) => s,
        InlineLevelBox::Atomic { .. } => s,
    }
}

/// The state after the boxes from index `from` on are laid out, one after
/// the other.
pub open spec fn spec_layout_boxes(boxes: Seq<InlineLevelBox>, from: int, s: StateView)
    -> StateView
    decreases boxes, boxes.len() - from,
{
    if from < 0 || from >= boxes.len() {
        s
    } else {
        spec_layout_boxes(boxes, from + 1, spec_layout_box(boxes[from], s))
    }
}

/// Why `boxes` cannot be laid out, if they cannot.
pub fn first_problem(boxes: &Vec<InlineLevelBox>) -> (r: Option<LayoutError>)
    ensures
        r == spec_first_problem(boxes@, 0),
    decreases boxes,
{
    let mut i: usize = 0;
    while i < boxes.len()
        invariant
            i <= boxes.len(),
            spec_first_problem(boxes@, 0) == spec_first_problem(boxes@, i as int),
        decreases boxes.len() - i,
    {
        let here = match &boxes[i] {
            InlineLevelBox::InlineBox(inline) => {
                assert(decreases_to!(boxes => boxes[i as int]));
                first_problem(&inline.children)
            },
            InlineLevelBox::TextRun(run) => if run.measurable() {
                None
            } else {
                Some(LayoutError::MeasurementFailure)
            },
            InlineLevelBox::Atomic { .. } => Some(LayoutError::UnsupportedContent),
            _ => None,
        };
        if here.is_some() {
            return here;
        }
        i += 1;
    }
    None
}

/// Whether nothing in `box_` stands in the way of laying it out.
pub open spec fn spec_box_ok(box_: InlineLevelBox) -> bool {
    match box_ {
        InlineLevelBox::InlineBox(inline) => spec_first_problem(inline.children@, 0) is None,
        InlineLevelBox::TextRun(run) => run.spec_measurable(),
        InlineLevelBox::Atomic { .. } => false,
        _ => true,
    }
}

/// Lays `box_` out at the end of the current line.
pub fn layout_box(box_: &InlineLevelBox, ifc: &mut InlineFormattingContextState)
    requires
        old(ifc).wf(),
        spec_box_ok(*box_),
    ensures
        final(ifc)@ == spec_layout_box(*box_, old(ifc)@),
        final(ifc).wf(),
        old(ifc)@.lines_consistent() ==> final(ifc)@.lines_consistent(),
        final(ifc).partial_inline_boxes_stack@.len() == old(ifc).partial_inline_boxes_stack@.len(),
    decreases box_, 0int,
{
    match box_ {
        InlineLevelBox::InlineBox(inline) => {
            inline.start_layout(ifc);
            layout_boxes(&inline.children, ifc);
            ifc.end_box();
        },
        InlineLevelBox::TextRun(run) => {
            run.layout(ifc);
        },
        InlineLevelBox::OutOfFlowAbsolutelyPositionedBox(absolute) => {
            ifc.place_absolute(absolute);
        },
        InlineLevelBox::OutOfFlowFloatBox(_) => {
            // Floats do not enter the inline flow.
        },
        InlineLevelBox::Atomic { .. } => {},
    }
}

/// Lays `boxes` out, one after the other.
pub fn layout_boxes(boxes: &Vec<InlineLevelBox>, ifc: &mut InlineFormattingContextState)
    requires
        old(ifc).wf(),
        spec_first_problem(boxes@, 0) is None,
    ensures
        final(ifc)@ == spec_layout_boxes(boxes@, 0, old(ifc)@),
        final(ifc).wf(),
        old(ifc)@.lines_consistent() ==> final(ifc)@.lines_consistent(),
        final(ifc).partial_inline_boxes_stack@.len() == old(ifc).partial_inline_boxes_stack@.len(),
    decreases boxes, boxes@.len(),
{
    let mut i: usize = 0;
    while i < boxes.len()
        invariant
            i <= boxes.len(),
            ifc.wf(),
            old(ifc)@.lines_consistent() ==> ifc@.lines_consistent(),
            ifc.partial_inline_boxes_stack@.len() == old(ifc).partial_inline_boxes_stack@.len(),
            spec_first_problem(boxes@, i as int) is None,
            spec_layout_boxes(boxes@, i as int, ifc@) == spec_layout_boxes(boxes@, 0, old(ifc)@),
        decreases boxes.len() - i,
    {
        assert(decreases_to!(boxes => boxes[i as int]));
        assert(spec_box_ok(boxes@[i as int]));
        layout_box(&boxes[i], ifc);
        i += 1;
    }
}

impl InlineFormattingContext {
    /// A formatting context of `parent_style` and `font` without boxes.
    pub fn new(parent_style: &Arc<ComputedValues>, font: Font) -> (r: InlineFormattingContext)
        ensures
            r.parent_style == *parent_style,
            r.font == font,
            r.inline_level_boxes@.len() == 0,
    {
        InlineFormattingContext {
            parent_style: share_arc(parent_style),
            font,
            inline_level_boxes: Vec::new(),
        }
    }

    /// The state in which layout starts: no line yet, an empty line at the
    /// start, and the container's own level with the metrics of its font.
    pub open spec fn spec_initial_state(
        &self,
        containing_block: ContainingBlock,
        tree_rank: usize,
        absolutes: Seq<AbsolutelyPositionedFragment>,
    ) -> StateView {
        StateView {
            containing_block,
            lines: Seq::empty(),
            next_line_block_position: Length::spec_zero(),
            text_align: self.parent_style.text_inherited.text_align,
            inline_position: Length::spec_zero(),
            partials: Seq::empty(),
            levels: seq![
                LevelView {
                    fragments: Seq::empty(),
                    inline_start: Length::spec_zero(),
                    block_ascent: self.font.0.ascent,
                    block_descent: self.font.0.descent,
                    block_ex: self.font.0.size.spec_half(),
                    block_baseline_adjustment: Length::spec_zero(),
                    max_block_ascent: Length::spec_zero(),
                    max_block_descent: Length::spec_zero(),
                },
            ],
            tree_rank,
            absolutes,
        }
    }

    /// The state in which layout ends: all boxes laid out, and the last
    /// line finished.
    pub open spec fn spec_final_state(
        &self,
        containing_block: ContainingBlock,
        tree_rank: usize,
        absolutes: Seq<AbsolutelyPositionedFragment>,
    ) -> StateView {
        spec_layout_boxes(
            self.inline_level_boxes@,
            0,
            self.spec_initial_state(containing_block, tree_rank, absolutes),
        ).spec_finish_line()
    }

    /// What laying the boxes out comes to: the state in which layout ends,
    /// or the first obstacle among the boxes.
    pub open spec fn spec_layout(
        &self,
        containing_block: ContainingBlock,
        tree_rank: usize,
        absolutes: Seq<AbsolutelyPositionedFragment>,
    ) -> Result<StateView, LayoutError> {
        match spec_first_problem(self.inline_level_boxes@, 0) {
            Some(problem) => Err(problem),
            None => Ok(self.spec_final_state(containing_block, tree_rank, absolutes)),
        }
    }

    /// Whether `r` and `absolutes_after` are what `layout` gives for a list
    /// that held `absolutes_before`: the lines and the place of the next line
    /// of the state in which layout ends, with its absolutely positioned
    /// fragments; or the obstacle, with the list as it was.
    pub open spec fn spec_is_outcome(
        &self,
        containing_block: ContainingBlock,
        tree_rank: usize,
        absolutes_before: Seq<AbsolutelyPositionedFragment>,
        r: Result<FlowChildren, LayoutError>,
        absolutes_after: Seq<AbsolutelyPositionedFragment>,
    ) -> bool {
        match self.spec_layout(containing_block, tree_rank, absolutes_before) {
            Err(problem) => {
                &&& r is Err
                &&& r->Err_0 == problem
                &&& absolutes_after == absolutes_before
            },
            Ok(end) => {
                &&& r is Ok
                &&& spec_views(r->Ok_0.fragments@) == end.lines
                &&& r->Ok_0.block_size == end.next_line_block_position
                &&& r->Ok_0.collapsible_margins_in_children == CollapsedBlockMargins::spec_zero()
                &&& absolutes_after == end.absolutes
            },
        }
    }

    /// Lays the boxes out into lines.
    ///
    /// Returns the lines, one anonymous fragment each, and the block size
    /// that they take. The absolutely positioned boxes among the boxes are
    /// added to `absolutely_positioned_fragments`, in document order. Where
    /// the boxes cannot be laid out, nothing is returned but the reason, and
    /// nothing is added.
    pub fn layout(
        &self,
        containing_block: &ContainingBlock,
        tree_rank: usize,
        absolutely_positioned_fragments: &mut Vec<AbsolutelyPositionedFragment>,
    ) -> (r: Result<FlowChildren, LayoutError>)
        ensures
            self.spec_is_outcome(
                *containing_block,
                tree_rank,
                old(absolutely_positioned_fragments)@,
                r,
                final(absolutely_positioned_fragments)@,
            ),
            r is Ok ==> r->Ok_0.block_size == StateView::spec_block_sum(
                spec_views(r->Ok_0.fragments@),
            ),
            r is Ok ==> forall|i: int|
                0 <= i < r->Ok_0.fragments@.len() ==> (#[trigger] r->Ok_0.fragments@[i])
                    is Anonymous,
            r is Ok ==> forall|i: int|
                0 <= i < r->Ok_0.fragments@.len() ==> (#[trigger] spec_views(
                    r->Ok_0.fragments@,
                )[i]).rect().size.block@ >= 0,
            r is Ok && StateView::spec_block_total(spec_views(r->Ok_0.fragments@)) <= i64::MAX
                ==> r->Ok_0.block_size@ == StateView::spec_block_total(
                spec_views(r->Ok_0.fragments@),
            ),
    {
        match first_problem(&self.inline_level_boxes) {
            Some(problem) => {
                return Err(problem);
            },
            None => {},
        }
        let block_ascent = self.font.get_ascent();
        let block_descent = self.font.get_descent();
        let block_ex = self.font.get_ex();
        let mut levels: Vec<InlineNestingLevelState> = Vec::new();
        levels.push(
            InlineNestingLevelState {
                fragments_so_far: Vec::new(),
                inline_start: Length::zero(),
                block_ascent,
                block_descent,
                block_ex,
                block_baseline_adjustment: Length::zero(),
                max_block_ascent_of_fragments_so_far: Length::zero(),
                max_block_descent_of_fragments_so_far: Length::zero(),
            },
        );
        let mut ifc = InlineFormattingContextState {
            containing_block: *containing_block,
            partial_inline_boxes_stack: Vec::new(),
            line_boxes: LinesBoxes { boxes: Vec::new(), next_line_block_position: Length::zero() },
            text_align: self.parent_style.text_inherited.text_align,
            inline_position: Length::zero(),
            levels,
            tree_rank,
            absolutely_positioned_fragments: Vec::new(),
        };
        core::mem::swap(&mut ifc.absolutely_positioned_fragments, absolutely_positioned_fragments);
        proof {
            let start = self.spec_initial_state(
                *containing_block,
                tree_rank,
                old(absolutely_positioned_fragments)@,
            );
            assert(ifc@.levels[0].fragments =~= Seq::<FragmentView>::empty());
            assert(ifc@.levels =~= start.levels);
            assert(ifc@.lines =~= start.lines);
            assert(ifc@.partials =~= start.partials);
        }
        layout_boxes(&self.inline_level_boxes, &mut ifc);
        // Nothing is left to lay out: finish the last line.
        ifc.finish_line();
        core::mem::swap(&mut ifc.absolutely_positioned_fragments, absolutely_positioned_fragments);
        proof {
            let lines = ifc.line_boxes.boxes@;
            assert forall|i: int| 0 <= i < lines.len() implies (#[trigger] lines[i])
                is Anonymous by {
                assert(spec_views(lines)[i] == lines[i]@);
            }
            lemma_block_sum_is_the_sum(spec_views(lines));
        }
        Ok(
            FlowChildren {
                fragments: ifc.line_boxes.boxes,
                block_size: ifc.line_boxes.next_line_block_position,
                collapsible_margins_in_children: CollapsedBlockMargins::zero(),
            },
        )
    }
}

} // verus!
