//! Fragments: the positioned, sized output of layout, ready for painting.

use vstd::prelude::*;
use std::sync::Arc;

use crate::geom::flow_relative::Rect;
use crate::geom::flow_relative::Sides;
use crate::geom::flow_relative::Vec2;
use crate::graphics_engine::shaped_segment::ShapedSegment;
use crate::graphics_engine::shaped_segment::ShapedSegmentView;
use crate::style::properties::ComputedValues;
use crate::style::values::length::Length;
use crate::style::values::writing_modes::Direction;
use crate::style::values::writing_modes::WritingMode;

verus! {

pub enum Fragment {
    Box(BoxFragment),
    Anonymous(AnonymousFragment),
    Text(TextFragment),
}

pub struct BoxFragment {
    pub style: Arc<ComputedValues>,
    pub children: Vec<Fragment>,
    /// Relative to the start corner of the containing block.
    pub content_rect: Rect<Length>,
    pub padding: Sides<Length>,
    pub border: Sides<Length>,
    pub margin: Sides<Length>,
    pub block_margins_collapsed_with_children: CollapsedBlockMargins,
}

#[derive(Copy, Clone, Debug)]
pub struct CollapsedBlockMargins {
    pub collapsed_through: bool,
    pub start: CollapsedMargin,
    pub end: CollapsedMargin,
}

/// The margins that adjoin at one edge, as far as they have been seen: the
/// largest positive one and the most negative one.
#[derive(Copy, Clone, Debug)]
pub struct CollapsedMargin {
    pub max_positive: Length,
    pub min_negative: Length,
}

/// Holds child fragments in coordinates relative to itself; paints nothing
/// of its own.
pub struct AnonymousFragment {
    pub rect: Rect<Length>,
    pub children: Vec<Fragment>,
    pub mode: (WritingMode, Direction),
}

pub struct TextFragment {
    pub parent_style: Arc<ComputedValues>,
    pub content_rect: Rect<Length>,
    pub text: ShapedSegment,
}

/// A fragment as a value.
pub enum FragmentView {
    Box(BoxFragmentView),
    Anonymous(AnonymousFragmentView),
    Text(TextFragmentView),
}

pub struct BoxFragmentView {
    pub style: Arc<ComputedValues>,
    pub children: Seq<FragmentView>,
    pub content_rect: Rect<Length>,
    pub padding: Sides<Length>,
    pub border: Sides<Length>,
    pub margin: Sides<Length>,
    pub block_margins_collapsed_with_children: CollapsedBlockMargins,
}

pub struct AnonymousFragmentView {
    pub rect: Rect<Length>,
    pub children: Seq<FragmentView>,
    pub mode: (WritingMode, Direction),
}

pub struct TextFragmentView {
    pub parent_style: Arc<ComputedValues>,
    pub content_rect: Rect<Length>,
    pub text: ShapedSegmentView,
}

impl Fragment {
    /// The fragment as a value, children and all.
    pub open spec fn view(&self) -> FragmentView
        decreases self,
    {
        match self {
            Fragment::Box(b) => FragmentView::Box(
                BoxFragmentView {
                    style: b.style,
                    children: Seq::new(
                        b.children@.len(),
                        |i: int|
                            if 0 <= i < b.children@.len() {
                                b.children@[i].view()
                            } else {
                                arbitrary()
                            },
                    ),
                    content_rect: b.content_rect,
                    padding: b.padding,
                    border: b.border,
                    margin: b.margin,
                    block_margins_collapsed_with_children: b.block_margins_collapsed_with_children,
                },
            ),
            Fragment::Anonymous(a) => FragmentView::Anonymous(
                AnonymousFragmentView {
                    rect: a.rect,
                    children: Seq::new(
                        a.children@.len(),
                        |i: int|
                            if 0 <= i < a.children@.len() {
                                a.children@[i].view()
                            } else {
                                arbitrary()
                            },
                    ),
                    mode: a.mode,
                },
            ),
            Fragment::Text(t) => FragmentView::Text(
                TextFragmentView {
                    parent_style: t.parent_style,
                    content_rect: t.content_rect,
                    text: t.text@,
                },
            ),
        }
    }
}

/// The fragments of `fragments` as values, in order.
pub open spec fn spec_views(fragments: Seq<Fragment>) -> Seq<FragmentView> {
    Seq::new(fragments.len(), |i: int| fragments[i]@)
}

/// The view of a box fragment holds the views of its children.
pub proof fn lemma_box_view(b: BoxFragment)
    ensures
        Fragment::Box(b)@ == FragmentView::Box(
            BoxFragmentView {
                style: b.style,
                children: spec_views(b.children@),
                content_rect: b.content_rect,
                padding: b.padding,
                border: b.border,
                margin: b.margin,
                block_margins_collapsed_with_children: b.block_margins_collapsed_with_children,
            },
        ),
{
    assert(Fragment::Box(b)@->Box_0.children =~= spec_views(b.children@));
}

/// The view of an anonymous fragment holds the views of its children.
pub proof fn lemma_anonymous_view(a: AnonymousFragment)
    ensures
        Fragment::Anonymous(a)@ == FragmentView::Anonymous(
            AnonymousFragmentView { rect: a.rect, children: spec_views(a.children@), mode: a.mode },
        ),
{
    assert(Fragment::Anonymous(a)@->Anonymous_0.children =~= spec_views(a.children@));
}

/// The view of a fragment that has children holds their views.
pub proof fn lemma_fragment_view(fragment: Fragment)
    ensures
        fragment matches Fragment::Box(b) ==> fragment@ == FragmentView::Box(
            BoxFragmentView {
                style: b.style,
                children: spec_views(b.children@),
                content_rect: b.content_rect,
                padding: b.padding,
                border: b.border,
                margin: b.margin,
                block_margins_collapsed_with_children: b.block_margins_collapsed_with_children,
            },
        ),
        fragment matches Fragment::Anonymous(a) ==> fragment@ == FragmentView::Anonymous(
            AnonymousFragmentView { rect: a.rect, children: spec_views(a.children@), mode: a.mode },
        ),
{
    if fragment is Box {
        lemma_box_view(fragment->Box_0);
    } else if fragment is Anonymous {
        lemma_anonymous_view(fragment->Anonymous_0);
    }
}

/// Pushing a fragment pushes its view.
pub proof fn lemma_views_push(fragments: Seq<Fragment>, fragment: Fragment)
    ensures
        spec_views(fragments.push(fragment)) == spec_views(fragments).push(fragment@),
{
    assert(spec_views(fragments.push(fragment)) =~= spec_views(fragments).push(fragment@));
}

impl AnonymousFragment {
    /// An empty fragment of no size at the origin.
    pub fn no_op(mode: (WritingMode, Direction)) -> (r: AnonymousFragment)
        ensures
            r.children@.len() == 0,
            r.rect == Rect::<Length>::spec_zero(),
            r.mode == mode,
    {
        AnonymousFragment { children: Vec::new(), rect: Rect::<Length>::zero(), mode }
    }
}

impl BoxFragmentView {
    /// The content rectangle grown by the padding.
    pub open spec fn padding_rect(self) -> Rect<Length> {
        self.content_rect.spec_inflate(self.padding)
    }

    /// The padding rectangle grown by the border.
    pub open spec fn border_rect(self) -> Rect<Length> {
        self.padding_rect().spec_inflate(self.border)
    }

    /// The border rectangle grown by the margin.
    pub open spec fn margin_rect(self) -> Rect<Length> {
        self.border_rect().spec_inflate(self.margin)
    }
}

impl BoxFragment {
    pub open spec fn spec_padding_rect(&self) -> Rect<Length> {
        self.content_rect.spec_inflate(self.padding)
    }

    pub open spec fn spec_border_rect(&self) -> Rect<Length> {
        self.content_rect.spec_inflate(self.padding).spec_inflate(self.border)
    }

    pub open spec fn spec_margin_rect(&self) -> Rect<Length> {
        self.content_rect.spec_inflate(self.padding).spec_inflate(self.border).spec_inflate(
            self.margin,
        )
    }

    pub fn padding_rect(&self) -> (r: Rect<Length>)
        ensures
            r == self.spec_padding_rect(),
    {
        self.content_rect.inflate(&self.padding)
    }

    pub fn border_rect(&self) -> (r: Rect<Length>)
        ensures
            r == self.spec_border_rect(),
    {
        self.content_rect.inflate(&self.padding).inflate(&self.border)
    }

    pub fn margin_rect(&self) -> (r: Rect<Length>)
        ensures
            r == self.spec_margin_rect(),
    {
        self.content_rect.inflate(&self.padding).inflate(&self.border).inflate(&self.margin)
    }
}

impl CollapsedBlockMargins {
    pub open spec fn spec_from_margin(margin: Sides<Length>) -> CollapsedBlockMargins {
        CollapsedBlockMargins {
            collapsed_through: false,
            start: CollapsedMargin::spec_new(margin.block_start),
            end: CollapsedMargin::spec_new(margin.block_end),
        }
    }

    pub open spec fn spec_zero() -> CollapsedBlockMargins {
        CollapsedBlockMargins {
            collapsed_through: false,
            start: CollapsedMargin::spec_zero(),
            end: CollapsedMargin::spec_zero(),
        }
    }

    /// The block-start and block-end margins of `margin`, each alone at its
    /// edge.
    pub fn from_margin(margin: &Sides<Length>) -> (r: CollapsedBlockMargins)
        ensures
            r == CollapsedBlockMargins::spec_from_margin(*margin),
    {
        CollapsedBlockMargins {
            collapsed_through: false,
            start: CollapsedMargin::new(margin.block_start),
            end: CollapsedMargin::new(margin.block_end),
        }
    }

    #[verifier::when_used_as_spec(spec_zero)]
    pub fn zero() -> (r: CollapsedBlockMargins)
        ensures
            r == CollapsedBlockMargins::spec_zero(),
    {
        CollapsedBlockMargins {
            collapsed_through: false,
            start: CollapsedMargin::zero(),
            end: CollapsedMargin::zero(),
        }
    }
}

impl CollapsedMargin {
    pub open spec fn spec_zero() -> CollapsedMargin {
        CollapsedMargin { max_positive: Length::spec_zero(), min_negative: Length::spec_zero() }
    }

    /// One margin alone: it is the largest positive one if it is positive,
    /// the most negative one if it is negative.
    pub open spec fn spec_new(margin: Length) -> CollapsedMargin {
        CollapsedMargin {
            max_positive: margin.spec_max(Length::spec_zero()),
            min_negative: margin.spec_min(Length::spec_zero()),
        }
    }

    /// The margins of both: the larger of the positive ones and the smaller
    /// of the negative ones.
    pub open spec fn spec_adjoin(self, other: CollapsedMargin) -> CollapsedMargin {
        CollapsedMargin {
            max_positive: self.max_positive.spec_max(other.max_positive),
            min_negative: self.min_negative.spec_min(other.min_negative),
        }
    }

    /// The margin that is left: the largest positive margin and the most
    /// negative one added.
    pub open spec fn spec_solve(self) -> Length {
        Length::of(self.max_positive@ + self.min_negative@)
    }

    /// Whether neither part has the wrong sign.
    pub open spec fn wf(self) -> bool {
        self.max_positive@ >= 0 && self.min_negative@ <= 0
    }

    #[verifier::when_used_as_spec(spec_zero)]
    pub fn zero() -> (r: CollapsedMargin)
        ensures
            r == CollapsedMargin::spec_zero(),
    {
        CollapsedMargin { max_positive: Length::zero(), min_negative: Length::zero() }
    }

    #[verifier::when_used_as_spec(spec_new)]
    pub fn new(margin: Length) -> (r: CollapsedMargin)
        ensures
            r == CollapsedMargin::spec_new(margin),
    {
        CollapsedMargin {
            max_positive: margin.max(Length::zero()),
            min_negative: margin.min(Length::zero()),
        }
    }

    pub fn adjoin(&self, other: &CollapsedMargin) -> (r: CollapsedMargin)
        ensures
            r == self.spec_adjoin(*other),
    {
        CollapsedMargin {
            max_positive: self.max_positive.max(other.max_positive),
            min_negative: self.min_negative.min(other.min_negative),
        }
    }

    pub fn adjoin_assign(&mut self, other: &CollapsedMargin)
        ensures
            *final(self) == old(self).spec_adjoin(*other),
    {
        *self = self.adjoin(other);
    }

    pub fn solve(&self) -> (r: Length)
        ensures
            r == self.spec_solve(),
    {
        self.max_positive + self.min_negative
    }
}

/// One margin alone solves to itself.
pub proof fn lemma_single_margin_solves_to_itself(margin: Length)
    ensures
        CollapsedMargin::spec_new(margin).spec_solve() == margin,
        CollapsedMargin::spec_new(margin).wf(),
{
}

/// Adjoining margins does not depend on their order or grouping, and
/// adjoining a margin to itself changes nothing.
pub proof fn lemma_adjoin_laws(a: CollapsedMargin, b: CollapsedMargin, c: CollapsedMargin)
    ensures
        a.spec_adjoin(b) == b.spec_adjoin(a),
        a.spec_adjoin(b).spec_adjoin(c) == a.spec_adjoin(b.spec_adjoin(c)),
        a.spec_adjoin(a) == a,
        a.wf() ==> a.spec_adjoin(CollapsedMargin::spec_zero()) == a,
        a.wf() && b.wf() ==> a.spec_adjoin(b).wf(),
{
}

/// Two adjoining margins collapse to the larger where both are positive, to
/// the more negative where both are negative, and to their sum where the
/// signs differ.
pub proof fn lemma_adjoin_two_margins(a: Length, b: Length)
    ensures
        a@ >= 0 && b@ >= 0 ==> CollapsedMargin::spec_new(a).spec_adjoin(
            CollapsedMargin::spec_new(b),
        ).spec_solve() == a.spec_max(b),
        a@ <= 0 && b@ <= 0 ==> CollapsedMargin::spec_new(a).spec_adjoin(
            CollapsedMargin::spec_new(b),
        ).spec_solve() == a.spec_min(b),
        a@ >= 0 && b@ <= 0 ==> CollapsedMargin::spec_new(a).spec_adjoin(
            CollapsedMargin::spec_new(b),
        ).spec_solve() == Length::of(a@ + b@),
{
}

impl FragmentView {
    /// The rectangle that places the fragment: the content rectangle of a
    /// box or a text, the rectangle of an anonymous fragment.
    pub open spec fn rect(self) -> Rect<Length> {
        match self {
            FragmentView::Box(b) => b.content_rect,
            FragmentView::Anonymous(a) => a.rect,
            FragmentView::Text(t) => t.content_rect,
        }
    }

    /// The fragment with `rect` as the rectangle that places it.
    pub open spec fn with_rect(self, rect: Rect<Length>) -> FragmentView {
        match self {
            FragmentView::Box(b) => FragmentView::Box(BoxFragmentView { content_rect: rect, ..b }),
            FragmentView::Anonymous(a) => FragmentView::Anonymous(
                AnonymousFragmentView { rect, ..a },
            ),
            FragmentView::Text(t) => FragmentView::Text(TextFragmentView { content_rect: rect, ..t }),
        }
    }

    /// The fragment moved by `block` along the block axis. Its children,
    /// placed relative to it, move with it.
    pub open spec fn translated_block(self, block: Length) -> FragmentView {
        let rect = self.rect();
        self.with_rect(
            Rect {
                start_corner: Vec2 {
                    inline: rect.start_corner.inline,
                    block: Length::of(rect.start_corner.block@ + block@),
                },
                size: rect.size,
            },
        )
    }
}

impl Fragment {
    /// Moves the fragment by `block` along the block axis.
    pub fn translate_block(&mut self, block: Length)
        ensures
            final(self)@ == old(self)@.translated_block(block),
    {
        proof {
            lemma_fragment_view(*old(self));
        }
        match self {
            Fragment::Box(b) => {
                b.content_rect.start_corner.block = b.content_rect.start_corner.block + block;
            },
            Fragment::Anonymous(a) => {
                a.rect.start_corner.block = a.rect.start_corner.block + block;
            },
            Fragment::Text(t) => {
                t.content_rect.start_corner.block = t.content_rect.start_corner.block + block;
            },
        }
        proof {
            lemma_fragment_view(*self);
        }
    }
}

/// `fragments`, each moved by `block` along the block axis.
pub open spec fn spec_translated_block(fragments: Seq<FragmentView>, block: Length) -> Seq<
    FragmentView,
> {
    Seq::new(fragments.len(), |i: int| fragments[i].translated_block(block))
}

/// Moves each of `fragments` by `block` along the block axis.
pub fn translate_all_block(fragments: &mut Vec<Fragment>, block: Length)
    ensures
        spec_views(final(fragments)@) == spec_translated_block(spec_views(old(fragments)@), block),
{
    let mut i: usize = 0;
    while i < fragments.len()
        invariant
            i <= fragments.len(),
            fragments.len() == old(fragments).len(),
            forall|k: int|
                0 <= k < i ==> (#[trigger] fragments@[k])@ == old(fragments)@[k]@.translated_block(
                    block,
                ),
            forall|k: int| i <= k < fragments.len() ==> #[trigger] fragments@[k] == old(fragments)@[k],
        decreases fragments.len() - i,
    {
        fragments[i].translate_block(block);
        i += 1;
    }
    assert(spec_views(fragments@) =~= spec_translated_block(spec_views(old(fragments)@), block));
}

} // verus!
