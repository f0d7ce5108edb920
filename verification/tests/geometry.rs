use sinab::geom::flow_relative;
use sinab::geom::physical;
use sinab::layout::fragments::CollapsedBlockMargins;
use sinab::layout::fragments::CollapsedMargin;
use sinab::style::values::border::LineStyle;
use sinab::style::values::border::LineWidth;
use sinab::style::values::length::Length;
use sinab::style::values::length::LengthOrAuto;
use sinab::style::values::length::LengthOrPercentage;
use sinab::style::values::length::LengthOrPercentageOrAuto;
use sinab::style::values::length::LengthOrPercentageOrNumber;
use sinab::style::values::length::Number;
use sinab::style::values::length::Percentage;
use sinab::style::values::writing_modes::Direction;
use sinab::style::values::writing_modes::WritingMode;

fn px(n: i32) -> Length {
    Length::from_px(n)
}

fn logical(inline: i32, block: i32, width: i32, height: i32) -> flow_relative::Rect<Length> {
    flow_relative::Rect {
        start_corner: flow_relative::Vec2 { inline: px(inline), block: px(block) },
        size: flow_relative::Vec2 { inline: px(width), block: px(height) },
    }
}

fn page(width: i32, height: i32) -> physical::Rect<Length> {
    physical::Rect {
        top_left: physical::Vec2 { x: px(0), y: px(0) },
        size: physical::Vec2 { x: px(width), y: px(height) },
    }
}

const ALL_MODES: [(WritingMode, Direction); 10] = [
    (WritingMode::HorizontalTb, Direction::Ltr),
    (WritingMode::HorizontalTb, Direction::Rtl),
    (WritingMode::VerticalRl, Direction::Ltr),
    (WritingMode::VerticalRl, Direction::Rtl),
    (WritingMode::VerticalLr, Direction::Ltr),
    (WritingMode::VerticalLr, Direction::Rtl),
    (WritingMode::SidewaysRl, Direction::Ltr),
    (WritingMode::SidewaysRl, Direction::Rtl),
    (WritingMode::SidewaysLr, Direction::Ltr),
    (WritingMode::SidewaysLr, Direction::Rtl),
];

#[test]
fn a_pixel_is_sixty_four_units() {
    assert_eq!(px(1).units, 64);
    assert_eq!(px(-3).units, -192);
    assert_eq!(Length::new(7).units, 7);
    assert_eq!(Length::zero().units, 0);
}

#[test]
fn length_arithmetic_is_exact_in_range() {
    assert_eq!(px(3) + px(4), px(7));
    assert_eq!(px(3) - px(4), px(-1));
    assert_eq!(px(3).neg(), px(-3));
    assert_eq!(px(3).max(px(4)), px(4));
    assert_eq!(px(3).min(px(4)), px(3));
    let mut m = px(3);
    m.max_assign(px(9));
    assert_eq!(m, px(9));
    m.max_assign(px(1));
    assert_eq!(m, px(9));
}

#[test]
fn length_arithmetic_saturates() {
    let most = Length::new(i64::MAX);
    let least = Length::new(i64::MIN);
    assert_eq!(most + px(1), most);
    assert_eq!(least - px(1), least);
    assert_eq!(least.neg(), most);
    assert_eq!(most.scale(2000), most);
    assert_eq!(most.scale(-2000), least);
}

#[test]
fn halves_and_scales_round_down() {
    assert_eq!(Length::new(7).half(), Length::new(3));
    assert_eq!(Length::new(-7).half(), Length::new(-4));
    assert_eq!(Length::new(8).half(), Length::new(4));
    assert_eq!(Length::new(-8).half(), Length::new(-4));
    assert_eq!(px(10).scale(1200), px(12));
    assert_eq!(Length::new(10).scale(333), Length::new(3));
    assert_eq!(Length::new(-10).scale(333), Length::new(-4));
    assert_eq!(px(10) * Percentage { thousandths: 500 }, px(5));
    assert_eq!(px(10) * Number { thousandths: 1500 }, px(15));
}

#[test]
fn percentages_are_taken_of_the_reference() {
    let half = Percentage { thousandths: 500 };
    assert_eq!(LengthOrPercentage::Length(px(3)).percentage_relative_to(px(200)), px(3));
    assert_eq!(LengthOrPercentage::Percentage(half).percentage_relative_to(px(200)), px(100));
    assert_eq!(
        LengthOrPercentageOrNumber::Number(Number { thousandths: 1200 })
            .percentage_or_number_relative_to(px(10)),
        px(12)
    );
    assert_eq!(
        LengthOrPercentageOrNumber::Percentage(half).percentage_or_number_relative_to(px(10)),
        px(5)
    );
    assert_eq!(
        LengthOrPercentageOrNumber::Length(px(7)).percentage_or_number_relative_to(px(10)),
        px(7)
    );
    assert_eq!(
        LengthOrPercentageOrAuto::Percentage(half).percentage_relative_to(px(10)),
        LengthOrAuto::Length(px(5))
    );
    assert_eq!(
        LengthOrPercentageOrAuto::Auto.percentage_relative_to(px(10)),
        LengthOrAuto::Auto
    );
    assert!(LengthOrPercentageOrAuto::Auto.non_auto().is_none());
    assert!(matches!(
        LengthOrPercentageOrAuto::Length(px(1)).non_auto(),
        Some(LengthOrPercentage::Length(l)) if l == px(1)
    ));
    assert!(matches!(
        LengthOrPercentageOrAuto::from(LengthOrPercentage::Length(px(2))),
        LengthOrPercentageOrAuto::Length(l) if l == px(2)
    ));
    assert_eq!(LengthOrAuto::Auto.auto_is(Length::zero), px(0));
    assert_eq!(LengthOrAuto::Length(px(4)).auto_is(Length::zero), px(4));
    assert_eq!(LengthOrAuto::Length(px(4)).map(|l| l + l), LengthOrAuto::Length(px(8)));
    assert_eq!(LengthOrAuto::Auto.map(|l| l + l), LengthOrAuto::Auto);
}

#[test]
fn a_border_without_line_has_no_width() {
    let mut width = LineWidth::medium();
    assert!(matches!(width.0, LengthOrPercentage::Length(l) if l == px(3)));
    width.fixup(LineStyle::Solid);
    assert!(matches!(width.0, LengthOrPercentage::Length(l) if l == px(3)));
    width.fixup(LineStyle::NoLine);
    assert!(matches!(width.0, LengthOrPercentage::Length(l) if l == px(0)));
}

#[test]
fn horizontal_left_to_right_maps_axes_straight() {
    let mode = (WritingMode::HorizontalTb, Direction::Ltr);
    let rect = logical(10, 20, 30, 40);
    let physical = rect.to_physical(mode, &page(600, 800));
    assert_eq!(physical.top_left, physical::Vec2 { x: px(10), y: px(20) });
    assert_eq!(physical.size, physical::Vec2 { x: px(30), y: px(40) });
}

#[test]
fn right_to_left_counts_from_the_right_edge() {
    let mode = (WritingMode::HorizontalTb, Direction::Rtl);
    let physical = logical(10, 20, 30, 40).to_physical(mode, &page(600, 800));
    assert_eq!(physical.top_left, physical::Vec2 { x: px(560), y: px(20) });
    assert_eq!(physical.size, physical::Vec2 { x: px(30), y: px(40) });
}

#[test]
fn vertical_modes_swap_the_axes() {
    let rect = logical(10, 20, 30, 40);
    let cb = page(600, 800);
    let rl = rect.to_physical((WritingMode::VerticalRl, Direction::Ltr), &cb);
    assert_eq!(rl.top_left, physical::Vec2 { x: px(540), y: px(10) });
    assert_eq!(rl.size, physical::Vec2 { x: px(40), y: px(30) });
    let lr = rect.to_physical((WritingMode::VerticalLr, Direction::Ltr), &cb);
    assert_eq!(lr.top_left, physical::Vec2 { x: px(20), y: px(10) });
    let sideways = rect.to_physical((WritingMode::SidewaysLr, Direction::Ltr), &cb);
    assert_eq!(sideways.top_left, physical::Vec2 { x: px(20), y: px(760) });
    assert_eq!(sideways.size, physical::Vec2 { x: px(40), y: px(30) });
}

#[test]
fn a_rect_comes_back_from_physical_coordinates() {
    let rect = logical(10, 20, 30, 40);
    let cb = page(600, 800);
    for mode in ALL_MODES {
        let there = rect.to_physical(mode, &cb);
        assert_eq!(there.to_flow_relative(mode, &cb), rect);
    }
    // Under horizontal-tb and ltr, even where the rect sticks out.
    let mode = (WritingMode::HorizontalTb, Direction::Ltr);
    let outside = logical(-700, 900, 5000, -3);
    assert_eq!(outside.to_physical(mode, &cb).to_flow_relative(mode, &cb), outside);
}

#[test]
fn sides_follow_the_writing_mode() {
    let sides = physical::Sides { top: 1, left: 2, bottom: 3, right: 4 };
    let ltr = sides.to_flow_relative((WritingMode::HorizontalTb, Direction::Ltr));
    assert_eq!(
        ltr,
        flow_relative::Sides { inline_start: 2, inline_end: 4, block_start: 1, block_end: 3 }
    );
    let rtl = sides.to_flow_relative((WritingMode::HorizontalTb, Direction::Rtl));
    assert_eq!(
        rtl,
        flow_relative::Sides { inline_start: 4, inline_end: 2, block_start: 1, block_end: 3 }
    );
    let vertical = sides.to_flow_relative((WritingMode::VerticalRl, Direction::Ltr));
    assert_eq!(
        vertical,
        flow_relative::Sides { inline_start: 1, inline_end: 3, block_start: 4, block_end: 2 }
    );
}

#[test]
fn inflating_grows_a_rect_outward() {
    let sides = flow_relative::Sides {
        inline_start: px(1),
        inline_end: px(2),
        block_start: px(3),
        block_end: px(4),
    };
    assert_eq!(logical(10, 20, 30, 40).inflate(&sides), logical(9, 17, 33, 47));
    assert_eq!(sides.inline_sum(), px(3));
    assert_eq!(sides.block_sum(), px(7));
    assert_eq!(flow_relative::Rect::<Length>::zero(), logical(0, 0, 0, 0));
}

#[test]
fn translating_moves_the_corner_only() {
    let moved = page(10, 20).translate(&physical::Vec2 { x: px(3), y: px(4) });
    assert_eq!(moved.top_left, physical::Vec2 { x: px(3), y: px(4) });
    assert_eq!(moved.size, physical::Vec2 { x: px(10), y: px(20) });
}

#[test]
fn adjoining_margins_collapse() {
    // Two positive margins: the larger.
    assert_eq!(CollapsedMargin::new(px(10)).adjoin(&CollapsedMargin::new(px(30))).solve(), px(30));
    // Two negative margins: the more negative.
    assert_eq!(
        CollapsedMargin::new(px(-10)).adjoin(&CollapsedMargin::new(px(-30))).solve(),
        px(-30)
    );
    // One of each: their sum.
    assert_eq!(CollapsedMargin::new(px(10)).adjoin(&CollapsedMargin::new(px(-30))).solve(), px(-20));
    assert_eq!(CollapsedMargin::zero().solve(), px(0));
    assert_eq!(CollapsedMargin::new(px(7)).solve(), px(7));
    let mut margin = CollapsedMargin::new(px(5));
    margin.adjoin_assign(&CollapsedMargin::new(px(8)));
    margin.adjoin_assign(&CollapsedMargin::new(px(-2)));
    assert_eq!(margin.max_positive, px(8));
    assert_eq!(margin.min_negative, px(-2));
    assert_eq!(margin.solve(), px(6));
}

#[test]
fn block_margins_start_from_the_block_sides() {
    let sides = flow_relative::Sides {
        inline_start: px(1),
        inline_end: px(2),
        block_start: px(3),
        block_end: px(-4),
    };
    let margins = CollapsedBlockMargins::from_margin(&sides);
    assert!(!margins.collapsed_through);
    assert_eq!(margins.start.solve(), px(3));
    assert_eq!(margins.end.solve(), px(-4));
    let zero = CollapsedBlockMargins::zero();
    assert!(!zero.collapsed_through);
    assert_eq!(zero.start.solve(), px(0));
    assert_eq!(zero.end.solve(), px(0));
}
