//! Painting: from fragments to draw calls in physical coordinates.

use vstd::prelude::*;

use crate::dom::Document;
use crate::geom::flow_relative;
use crate::geom::physical::Rect;
use crate::geom::physical::Vec2;
use crate::graphics_engine::renderer::DrawCommandView;
use crate::graphics_engine::renderer::RenderDevice;
use crate::graphics_engine::renderer::spec_fill_context;
use crate::graphics_engine::renderer::spec_text_context;
use crate::layout::ContainingBlock;
use crate::layout::flow::inline::spec_first_problem;
use crate::layout::fragments::BoxFragment;
use crate::layout::fragments::BoxFragmentView;
use crate::layout::fragments::Fragment;
use crate::layout::fragments::FragmentView;
use crate::layout::fragments::lemma_fragment_view;
use crate::layout::fragments::spec_views;
use crate::layout::LayoutError;
use crate::layout::positioned::AbsolutelyPositionedFragment;
use crate::primitives::CssPx;
use crate::primitives::RGBA;
use crate::primitives::Size;
use crate::style::properties::ComputedValues;
use crate::style::values::border::LineStyle;
use crate::style::values::length::Length;
use crate::style::values::length::LengthOrAuto;
use crate::style::values::writing_modes::Direction;
use crate::style::values::writing_modes::WritingMode;

verus! {

/// Where `rect`, given relative to `containing_block` in the flow of `mode`,
/// lies on the page.
pub open spec fn spec_on_page(
    rect: flow_relative::Rect<Length>,
    mode: (WritingMode, Direction),
    containing_block: Rect<Length>,
) -> Rect<Length> {
    rect.spec_to_physical(mode, containing_block).spec_translate(containing_block.top_left)
}

pub fn on_page(
    rect: &flow_relative::Rect<Length>,
    mode: (WritingMode, Direction),
    containing_block: &Rect<Length>,
) -> (r: Rect<Length>)
    ensures
        r == spec_on_page(*rect, mode, *containing_block),
{
    rect.to_physical(mode, containing_block).translate(&containing_block.top_left)
}

/// The four edges of a border.
#[derive(Copy, Clone, Debug, PartialEq, Eq, Structural)]
pub enum Edge {
    Top,
    Right,
    Bottom,
    Left,
}

/// The width of the border at `edge`: what lies between the border
/// rectangle and the padding rectangle there.
pub open spec fn spec_border_width(edge: Edge, border: Rect<Length>, padding: Rect<Length>)
    -> Length {
    match edge {
        Edge::Top => padding.top_left.y.minus(border.top_left.y),
        Edge::Right => border.top_left.x.plus(border.size.x).minus(padding.top_left.x).minus(
            padding.size.x,
        ),
        Edge::Bottom => border.top_left.y.plus(border.size.y).minus(padding.top_left.y).minus(
            padding.size.y,
        ),
        Edge::Left => padding.top_left.x.minus(border.top_left.x),
    }
}

/// The line that draws the border at `edge`, `width` wide: along the middle
/// of the border, from one corner of the border rectangle to the next, so that
/// the four lines meet at the corners.
pub open spec fn spec_border_points(edge: Edge, border: Rect<Length>, width: Length) -> Seq<
    Vec2<Length>,
> {
    let corner = border.top_left;
    match edge {
        Edge::Top => {
            let y = corner.y.plus(width.spec_half());
            seq![Vec2 { x: corner.x, y }, Vec2 { x: corner.x.plus(border.size.x), y }]
        },
        Edge::Right => {
            let x = corner.x.plus(border.size.x.minus(width.spec_half()));
            seq![Vec2 { x, y: corner.y }, Vec2 { x, y: corner.y.plus(border.size.y) }]
        },
        Edge::Bottom => {
            let y = corner.y.plus(border.size.y.minus(width.spec_half()));
            seq![Vec2 { x: corner.x.plus(border.size.x), y }, Vec2 { x: corner.x, y }]
        },
        Edge::Left => {
            let x = corner.x.plus(width.spec_half());
            seq![Vec2 { x, y: corner.y.plus(border.size.y) }, Vec2 { x, y: corner.y }]
        },
    }
}

/// The draw calls for the border at `edge`: one line, or none where the
/// border has no width or its line style is `NoLine`.
pub open spec fn spec_paint_edge(
    edge: Edge,
    border: Rect<Length>,
    padding: Rect<Length>,
    style: LineStyle,
    color: RGBA,
) -> Seq<DrawCommandView> {
    let width = spec_border_width(edge, border, padding);
    if width@ > 0 && style != LineStyle::NoLine {
        seq![
            DrawCommandView::Line {
                points: spec_border_points(edge, border, width),
                color,
                width,
                style,
            },
        ]
    } else {
        Seq::empty()
    }
}

/// The draw calls for the background: the border rectangle filled, or
/// nothing where the color is fully transparent.
pub open spec fn spec_paint_background(border: Rect<Length>, color: RGBA) -> Seq<DrawCommandView> {
    if color.3 > 0 {
        seq![
            DrawCommandView::Rect {
                x: border.top_left.x,
                y: border.top_left.y,
                width: border.size.x,
                height: border.size.y,
                gc: spec_fill_context(color),
            },
        ]
    } else {
        Seq::empty()
    }
}

/// The draw calls for a box itself, without its children: its margin
/// rectangle as bounding box, its background, and its borders at the top, the
/// right, the bottom and the left.
pub open spec fn spec_paint_box(b: BoxFragmentView, containing_block: Rect<Length>) -> Seq<
    DrawCommandView,
> {
    let mode = b.style.spec_writing_mode();
    let border = spec_on_page(b.border_rect(), mode, containing_block);
    let padding = spec_on_page(b.padding_rect(), mode, containing_block);
    seq![
        DrawCommandView::BoundingBox {
            rect: spec_on_page(b.margin_rect(), mode, containing_block),
        },
    ] + spec_paint_background(border, b.style.spec_to_rgba(b.style.background.background_color))
        + spec_paint_borders(&*b.style, border, padding)
}

/// The draw calls for `fragment` and all that it holds, depth first.
///
/// A box draws itself and then its children, which are placed relative to
/// its content rectangle. An anonymous fragment draws nothing of its own; its
/// children are placed relative to it. A text is drawn with its baseline one
/// font ascent below the top of its rectangle, in the color of its style.
pub open spec fn spec_paint(fragment: FragmentView, containing_block: Rect<Length>) -> Seq<
    DrawCommandView,
>
    decreases fragment, 0int,
{
    match fragment {
        FragmentView::Box(b) => spec_paint_box(b, containing_block) + spec_paint_all(
            b.children,
            0,
            spec_on_page(b.content_rect, b.style.spec_writing_mode(), containing_block),
        ),
        FragmentView::Anonymous(a) => {
            let rect = spec_on_page(a.rect, a.mode, containing_block);
            seq![DrawCommandView::BoundingBox { rect }] + spec_paint_all(a.children, 0, rect)
        },
        FragmentView::Text(t) => {
            let rect = spec_on_page(
                t.content_rect,
                t.parent_style.spec_writing_mode(),
                containing_block,
            );
            seq![
                DrawCommandView::BoundingBox { rect },
                DrawCommandView::Text {
                    label: t.text.glyphs,
                    x: rect.top_left.x,
                    y: rect.top_left.y.plus(t.text.font.0.ascent),
                    gc: spec_text_context(t.text.font, t.parent_style.color.color),
                },
            ]
        },
    }
}

/// The draw calls for the fragments from index `from` on, in order.
pub open spec fn spec_paint_all(
    fragments: Seq<FragmentView>,
    from: int,
    containing_block: Rect<Length>,
) -> Seq<DrawCommandView>
    decreases fragments, fragments.len() - from,
{
    if from < 0 || from >= fragments.len() {
        Seq::empty()
    } else {
        spec_paint(fragments[from], containing_block) + spec_paint_all(
            fragments,
            from + 1,
            containing_block,
        )
    }
}

/// Draws the border at `edge`, unless it has no width or no line.
fn paint_edge(
    rdev: &mut RenderDevice,
    edge: Edge,
    border: &Rect<Length>,
    padding: &Rect<Length>,
    style: LineStyle,
    color: RGBA,
)
    ensures
        final(rdev)@ == old(rdev)@ + spec_paint_edge(edge, *border, *padding, style, color),
{
    let width = match edge {
        Edge::Top => padding.top_left.y - border.top_left.y,
        Edge::Right => border.top_left.x + border.size.x - padding.top_left.x - padding.size.x,
        Edge::Bottom => border.top_left.y + border.size.y - padding.top_left.y - padding.size.y,
        Edge::Left => padding.top_left.x - border.top_left.x,
    };
    let drawn = width.units > 0 && match style {
        LineStyle::NoLine => false,
        _ => true,
    };
    if drawn {
        let mut v: Vec<Vec2<Length>> = Vec::with_capacity(2);
        let mut first = border.top_left;
        match edge {
            Edge::Top => {
                // The middle of the border lies half its width inside.
                first.y = first.y + width.half();
                let mut second = first;
                second.x = second.x + border.size.x;
                v.push(first);
                v.push(second);
            },
            Edge::Right => {
                first.x = first.x + (border.size.x - width.half());
                let mut second = first;
                second.y = second.y + border.size.y;
                v.push(first);
                v.push(second);
            },
            Edge::Bottom => {
                first.y = first.y + (border.size.y - width.half());
                let mut second = first;
                second.x = second.x + border.size.x;
                v.push(second);
                v.push(first);
            },
            Edge::Left => {
                first.x = first.x + width.half();
                let mut second = first;
                second.y = second.y + border.size.y;
                v.push(second);
                v.push(first);
            },
        }
        assert(v@ =~= spec_border_points(edge, *border, width));
        rdev.draw_line(v, color, width, style);
        assert(rdev@ =~= old(rdev)@ + spec_paint_edge(edge, *border, *padding, style, color));
    } else {
        assert(rdev@ =~= old(rdev)@ + spec_paint_edge(edge, *border, *padding, style, color));
    }
}

/// The draw calls for the four borders of a box of `style`: top, right,
/// bottom, left.
pub open spec fn spec_paint_borders(
    style: &ComputedValues,
    border: Rect<Length>,
    padding: Rect<Length>,
) -> Seq<DrawCommandView> {
    spec_paint_edge(
        Edge::Top,
        border,
        padding,
        style.border.border_top_style,
        style.spec_to_rgba(style.border.border_top_color),
    ) + spec_paint_edge(
        Edge::Right,
        border,
        padding,
        style.border.border_right_style,
        style.spec_to_rgba(style.border.border_right_color),
    ) + spec_paint_edge(
        Edge::Bottom,
        border,
        padding,
        style.border.border_bottom_style,
        style.spec_to_rgba(style.border.border_bottom_color),
    ) + spec_paint_edge(
        Edge::Left,
        border,
        padding,
        style.border.border_left_style,
        style.spec_to_rgba(style.border.border_left_color),
    )
}

/// Fills the border rectangle with `color`, unless it is fully transparent.
fn paint_background(rdev: &mut RenderDevice, border: &Rect<Length>, color: RGBA)
    ensures
        final(rdev)@ == old(rdev)@ + spec_paint_background(*border, color),
{
    if color.3 > 0 {
        rdev.draw_rect(border.top_left.x, border.top_left.y, border.size.x, border.size.y, color);
    }
    assert(rdev@ =~= old(rdev)@ + spec_paint_background(*border, color));
}

/// Draws the four borders of a box of `style`.
fn paint_borders(
    rdev: &mut RenderDevice,
    style: &ComputedValues,
    border: &Rect<Length>,
    padding: &Rect<Length>,
)
    ensures
        final(rdev)@ == old(rdev)@ + spec_paint_borders(style, *border, *padding),
{
    paint_edge(
        rdev,
        Edge::Top,
        border,
        padding,
        style.border.border_top_style,
        style.to_rgba(style.border.border_top_color),
    );
    paint_edge(
        rdev,
        Edge::Right,
        border,
        padding,
        style.border.border_right_style,
        style.to_rgba(style.border.border_right_color),
    );
    paint_edge(
        rdev,
        Edge::Bottom,
        border,
        padding,
        style.border.border_bottom_style,
        style.to_rgba(style.border.border_bottom_color),
    );
    paint_edge(
        rdev,
        Edge::Left,
        border,
        padding,
        style.border.border_left_style,
        style.to_rgba(style.border.border_left_color),
    );
    assert(rdev@ =~= old(rdev)@ + spec_paint_borders(style, *border, *padding));
}

impl BoxFragment {
    /// Draws the box itself: bounding box, background and borders.
    fn paint_own(&self, rdev: &mut RenderDevice, containing_block: &Rect<Length>)
        ensures
            final(rdev)@ == old(rdev)@ + spec_paint_box(
                Fragment::Box(*self)@->Box_0,
                *containing_block,
            ),
    {
        proof {
            lemma_fragment_view(Fragment::Box(*self));
        }
        let mode = self.style.writing_mode();
        // With padding, borders and margins.
        let margin_rect = on_page(&self.margin_rect(), mode, containing_block);
        // With padding and borders.
        let border_rect = on_page(&self.border_rect(), mode, containing_block);
        // With padding only.
        let padding_rect = on_page(&self.padding_rect(), mode, containing_block);

        rdev.record_bbox(&margin_rect);
        let ghost boxed = rdev@;
        let background_color = self.style.to_rgba(self.style.background.background_color);
        paint_background(rdev, &border_rect, background_color);
        paint_borders(rdev, &*self.style, &border_rect, &padding_rect);
        proof {
            let first = seq![DrawCommandView::BoundingBox { rect: margin_rect }];
            let second = spec_paint_background(border_rect, background_color);
            let third = spec_paint_borders(&*self.style, border_rect, padding_rect);
            assert(boxed =~= old(rdev)@ + first);
            assert(rdev@ =~= old(rdev)@ + (first + second + third));
            assert(first + second + third =~= spec_paint_box(
                Fragment::Box(*self)@->Box_0,
                *containing_block,
            ));
        }
    }

    /// Draws the box and then its children.
    pub fn paint_onto(&self, rdev: &mut RenderDevice, containing_block: &Rect<Length>)
        ensures
            final(rdev)@ == old(rdev)@ + spec_paint(Fragment::Box(*self)@, *containing_block),
        decreases self, 1int,
    {
        proof {
            lemma_fragment_view(Fragment::Box(*self));
        }
        self.paint_own(rdev, containing_block);
        let content_rect = on_page(&self.content_rect, self.style.writing_mode(), containing_block);
        paint_all(&self.children, rdev, &content_rect);
        proof {
            let first = spec_paint_box(Fragment::Box(*self)@->Box_0, *containing_block);
            let second = spec_paint_all(spec_views(self.children@), 0, content_rect);
            assert(rdev@ =~= old(rdev)@ + (first + second));
        }
    }
}

impl Fragment {
    /// Draws the fragment and all that it holds.
    pub fn paint_onto(&self, rdev: &mut RenderDevice, containing_block: &Rect<Length>)
        ensures
            final(rdev)@ == old(rdev)@ + spec_paint(self@, *containing_block),
        decreases self, 2int,
    {
        proof {
            lemma_fragment_view(*self);
        }
        match self {
            Fragment::Box(b) => b.paint_onto(rdev, containing_block),
            Fragment::Anonymous(a) => {
                let rect = on_page(&a.rect, a.mode, containing_block);
                rdev.record_bbox(&rect);
                paint_all(&a.children, rdev, &rect);
                assert(rdev@ =~= old(rdev)@ + spec_paint(self@, *containing_block));
            },
            Fragment::Text(t) => {
                let rect = on_page(
                    &t.content_rect,
                    t.parent_style.writing_mode(),
                    containing_block,
                );
                let mut origin = rect.top_left;
                rdev.record_bbox(&rect);
                // From the top edge down to the baseline.
                let ascender: Length = t.text.font.get_ascent();
                origin.y = origin.y + ascender;
                rdev.draw_text(
                    &t.text.glyphs,
                    origin.x,
                    origin.y,
                    &t.text.font,
                    t.parent_style.color.color,
                );
                assert(rdev@ =~= old(rdev)@ + spec_paint(self@, *containing_block));
            },
        }
    }
}

/// Draws `fragments`, one after the other.
pub fn paint_all(fragments: &Vec<Fragment>, rdev: &mut RenderDevice, containing_block: &Rect<Length>)
    ensures
        final(rdev)@ == old(rdev)@ + spec_paint_all(spec_views(fragments@), 0, *containing_block),
    decreases fragments, 0int,
{
    let ghost views = spec_views(fragments@);
    let mut i: usize = 0;
    while i < fragments.len()
        invariant
            i <= fragments.len(),
            views == spec_views(fragments@),
            rdev@ + spec_paint_all(views, i as int, *containing_block) == old(rdev)@
                + spec_paint_all(views, 0, *containing_block),
        decreases fragments.len() - i,
    {
        let ghost before = rdev@;
        assert(decreases_to!(fragments => fragments[i as int]));
        fragments[i].paint_onto(rdev, containing_block);
        proof {
            let here = spec_paint(views[i as int], *containing_block);
            let rest = spec_paint_all(views, i + 1, *containing_block);
            assert((before + here) + rest =~= before + (here + rest));
        }
        i += 1;
    }
    assert(rdev@ + Seq::<DrawCommandView>::empty() =~= rdev@);
}

/// The containing block that a page of `page_size` gives the content of a
/// document: as wide and as high as the page, written horizontally from left
/// to right.
pub open spec fn spec_page_block(page_size: Size<CssPx>) -> ContainingBlock {
    ContainingBlock {
        inline_size: page_size.width,
        block_size: LengthOrAuto::Length(page_size.height),
        mode: (WritingMode::HorizontalTb, Direction::Ltr),
    }
}

/// The page as a rectangle: at the origin, of `page_size`.
pub open spec fn spec_page_rect(page_size: Size<CssPx>) -> Rect<Length> {
    Rect {
        top_left: Vec2 { x: Length::spec_zero(), y: Length::spec_zero() },
        size: Vec2 { x: page_size.width, y: page_size.height },
    }
}

impl Document {
    /// The lines that the content is laid out into on a page of
    /// `page_size`.
    pub open spec fn spec_layout(&self, page_size: Size<CssPx>) -> Seq<FragmentView> {
        self.content.spec_final_state(
            spec_page_block(page_size),
            0,
            Seq::<AbsolutelyPositionedFragment>::empty(),
        ).lines
    }

    /// The absolutely positioned boxes of the content, with the places that
    /// they would have had in the flow on a page of `page_size`.
    pub open spec fn spec_absolutes(&self, page_size: Size<CssPx>) -> Seq<
        AbsolutelyPositionedFragment,
    > {
        self.content.spec_final_state(
            spec_page_block(page_size),
            0,
            Seq::<AbsolutelyPositionedFragment>::empty(),
        ).absolutes
    }

    /// Lays the content out on a page of `page_size`. Returns the lines and
    /// the absolutely positioned boxes, which are for others to place; or the
    /// reason why the content cannot be laid out.
    pub fn layout(&self, page_size: &Size<CssPx>) -> (r: Result<
        (Vec<Fragment>, Vec<AbsolutelyPositionedFragment>),
        LayoutError,
    >)
        ensures
            match spec_first_problem(self.content.inline_level_boxes@, 0) {
                Some(problem) => r is Err && r->Err_0 == problem,
                None => {
                    &&& r is Ok
                    &&& spec_views(r->Ok_0.0@) == self.spec_layout(*page_size)
                    &&& r->Ok_0.1@ == self.spec_absolutes(*page_size)
                },
            },
    {
        let containing_block = ContainingBlock {
            inline_size: page_size.width,
            block_size: LengthOrAuto::Length(page_size.height),
            mode: (WritingMode::HorizontalTb, Direction::Ltr),
        };
        let mut absolutes: Vec<AbsolutelyPositionedFragment> = Vec::new();
        match self.content.layout(&containing_block, 0, &mut absolutes) {
            Ok(flow) => Ok((flow.fragments, absolutes)),
            Err(problem) => Err(problem),
        }
    }

    /// Lays the content out on a page of `page_size` and draws its lines
    /// onto `rdev`. Absolutely positioned boxes are not in the lines and are
    /// not drawn. Where the content cannot be laid out, nothing is drawn and
    /// the reason is returned.
    pub fn paint_onto(&self, rdev: &mut RenderDevice, page_size: Size<CssPx>) -> (r: Result<
        (),
        LayoutError,
    >)
        ensures
            match spec_first_problem(self.content.inline_level_boxes@, 0) {
                Some(problem) => r is Err && r->Err_0 == problem && final(rdev)@ == old(rdev)@,
                None => r is Ok && final(rdev)@ == old(rdev)@ + spec_paint_all(
                    self.spec_layout(page_size),
                    0,
                    spec_page_rect(page_size),
                ),
            },
    {
        let fragments = match self.layout(&page_size) {
            Ok((fragments, _)) => fragments,
            Err(problem) => {
                return Err(problem);
            },
        };
        let containing_block = Rect {
            top_left: Vec2 { x: Length::zero(), y: Length::zero() },
            size: Vec2 { x: page_size.width, y: page_size.height },
        };
        paint_all(&fragments, rdev, &containing_block);
        Ok(())
    }
}

} // verus!
