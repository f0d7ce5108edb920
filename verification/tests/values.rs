use sinab::markdown::md_to_html;
use sinab::primitives::RGBA;
use sinab::style::values::color::Color;
use sinab::style::errors::PropertyParseError;
use sinab::style::values::border::BorderFourSides;
use sinab::style::values::border::BorderSide;
use sinab::style::values::border::ComponentReading;
use sinab::style::values::border::LineStyle;
use sinab::style::values::border::LineWidth;
use sinab::style::values::border::SpecifiedLineWidth;
use sinab::style::values::float_bits::from_float_bits;
use sinab::style::values::length::Percentage;
use sinab::style::values::length::SpecifiedLengthOrPercentage;
use sinab::style::values::length::Length;
use sinab::style::values::length::LengthOrPercentage;
use sinab::style::values::length::Number;
use sinab::style::values::length::SpecifiedLength;
use sinab::style::values::fontfamily::FontFamily;
use sinab::style::values::fonts::FontStyle;
use sinab::style::values::generic::FourSides;
use sinab::style::values::fonts::FontWeight;
use sinab::style::values::text::WhiteSpace;
use sinab::style::values::writing_modes::Direction;
use sinab::style::values::writing_modes::WritingMode;
use sinab::utils::string_format;

fn family(css: &str) -> FontFamily {
    match FontFamily::parse(css) {
        Ok(value) => value,
        Err(_) => panic!("Error parsing css value of type FontFamily"),
    }
}

fn assert_family_name(parsed: FontFamily, expected: &str) {
    match parsed {
        FontFamily::FamilyName(name) => assert_eq!(name, expected.to_string()),
        other => panic!("expected a family name, got {:?}", other),
    }
}

#[test]
fn test_font() {
    assert_eq!(FontStyle::parse("normal").unwrap(), FontStyle::Normal);
    assert_eq!(FontStyle::parse("italic").unwrap(), FontStyle::Italic);
    assert_eq!(FontStyle::parse("oblique").unwrap(), FontStyle::Oblique);

    assert_eq!(FontWeight::parse("normal").unwrap(), FontWeight::Normal);
    assert_eq!(FontWeight::parse("bold").unwrap(), FontWeight::Bold);

    assert!(matches!(family("sans-serif"), FontFamily::GenericSans));
    assert!(matches!(family("monospace"), FontFamily::GenericMonospace));
    assert_family_name(family("Times"), "Times");
    assert_family_name(family("'Times New Roman'"), "Times New Roman");
}

trait StringFormat {
    fn string_format(&self) -> String;
}

#[derive(Debug, PartialEq)]
enum Float {
    NoFloat,
    Left,
    Right,
}

impl StringFormat for Float {
    fn string_format(&self) -> String {
        string_format("Float")
    }
}

#[test]
fn expand_test() {
    let f = Float::Left;

    println!("Hello world! {:?}", f.string_format());
    assert_eq!(f.string_format(), "hello type: Float");
}

#[test]
fn expand_expand_test() {
    let f = Float::Left;

    println!("Macro expansion test.\nOutput from #[derive]ed code: {:?}", f.string_format());
    assert_eq!(f.string_format(), "hello type: Float");
    assert_eq!(Float::NoFloat.string_format(), Float::Right.string_format());
}

#[test]
fn keywords_are_read_whatever_their_case() {
    assert_eq!(FontStyle::parse("ITALIC").unwrap(), FontStyle::Italic);
    assert_eq!(FontWeight::parse(" Bold ").unwrap(), FontWeight::Bold);
    assert_eq!(LineStyle::parse("none").unwrap(), LineStyle::NoLine);
    assert_eq!(LineStyle::parse("dashed").unwrap(), LineStyle::Dashed);
    assert_eq!(WhiteSpace::parse("pre-wrap").unwrap(), WhiteSpace::PreWrap);
    assert_eq!(WhiteSpace::parse("break-spaces").unwrap(), WhiteSpace::BreakSpaces);
    assert_eq!(Direction::parse("rtl").unwrap(), Direction::Rtl);
    assert_eq!(WritingMode::parse("Sideways-LR").unwrap(), WritingMode::SidewaysLr);
    assert!(matches!(family("SERIF"), FontFamily::GenericSerif));
    assert!(matches!(family("/* any */ fantasy"), FontFamily::GenericFantasy));
}

#[test]
fn values_that_are_no_keywords_are_errors() {
    assert_eq!(FontStyle::parse(""), Err(PropertyParseError::EndOfInput));
    assert_eq!(FontStyle::parse("   "), Err(PropertyParseError::EndOfInput));
    assert_eq!(FontStyle::parse("bold"), Err(PropertyParseError::UnexpectedToken));
    assert_eq!(FontWeight::parse("12px"), Err(PropertyParseError::UnexpectedToken));
    assert_eq!(FontWeight::parse("'bold'"), Err(PropertyParseError::UnexpectedToken));
    assert!(matches!(FontFamily::parse(""), Err(PropertyParseError::EndOfInput)));
    assert!(matches!(FontFamily::parse("Times New"), Err(PropertyParseError::UnexpectedToken)));
    assert!(matches!(FontFamily::parse("12"), Err(PropertyParseError::UnexpectedToken)));
    // A keyword enum looks at its first token only.
    assert_eq!(FontStyle::parse("italic bold").unwrap(), FontStyle::Italic);
}

#[test]
fn markdown_becomes_html() {
    assert_eq!(md_to_html("# hello"), "<h1>hello</h1>\n");
    assert_eq!(md_to_html("a *b* c"), "<p>a <em>b</em> c</p>\n");
    assert_eq!(
        md_to_html("|a|\n|-|\n|b|\n"),
        "<table><thead><tr><th>a</th></tr></thead><tbody>\n<tr><td>b</td></tr>\n</tbody></table>\n"
    );
}

#[test]
fn tests_test_color() {
    if let Ok(Color::RGBA(rgba)) = Color::parse("green") {
        assert_eq!(rgba, RGBA(0, 128, 0, 255));
    } else {
        assert!(false);
    }

    if let Ok(Color::RGBA(rgba)) = Color::parse("#808080") {
        assert_eq!(rgba, RGBA(128, 128, 128, 255));
    } else {
        assert!(false);
    }

    if let Ok(Color::RGBA(rgba)) = Color::parse("#ff000080") {
        assert_eq!(rgba, RGBA(255, 0, 0, 128));
    } else {
        assert!(false);
    }

    assert_eq!(Color::parse("currentcolor").unwrap(), Color::CurrentColor);
}

#[test]
fn what_is_no_color_is_an_error() {
    assert_eq!(Color::parse("12px"), Err(PropertyParseError::UnexpectedToken));
    assert_eq!(Color::parse("#12345"), Err(PropertyParseError::UnexpectedToken));
    assert_eq!(Color::parse(""), Err(PropertyParseError::UnexpectedToken));
    assert_eq!(Color::parse("rgb(1, 2, 3)").unwrap(), Color::RGBA(RGBA(1, 2, 3, 255)));
}

#[test]
fn one_to_four_values_stand_for_four_sides() {
    assert_eq!(FourSides::<i32>::from_values(&vec![]), None);
    assert_eq!(
        FourSides::from_values(&vec![1]),
        Some(FourSides { top: 1, right: 1, bottom: 1, left: 1 })
    );
    assert_eq!(
        FourSides::from_values(&vec![1, 2]),
        Some(FourSides { top: 1, right: 2, bottom: 1, left: 2 })
    );
    assert_eq!(
        FourSides::from_values(&vec![1, 2, 3]),
        Some(FourSides { top: 1, right: 2, bottom: 3, left: 2 })
    );
    assert_eq!(
        FourSides::from_values(&vec![1, 2, 3, 4, 5]),
        Some(FourSides { top: 1, right: 2, bottom: 3, left: 4 })
    );
}

#[test]
fn line_styles_are_read_for_four_sides() {
    assert_eq!(
        FourSides::<LineStyle>::parse("solid"),
        Ok(FourSides {
            top: LineStyle::Solid,
            right: LineStyle::Solid,
            bottom: LineStyle::Solid,
            left: LineStyle::Solid,
        })
    );
    assert_eq!(
        FourSides::<LineStyle>::parse("solid NONE dotted"),
        Ok(FourSides {
            top: LineStyle::Solid,
            right: LineStyle::NoLine,
            bottom: LineStyle::Dotted,
            left: LineStyle::NoLine,
        })
    );
    // What follows the keywords is left alone.
    assert_eq!(
        FourSides::<LineStyle>::parse("dashed solid 3px red"),
        Ok(FourSides {
            top: LineStyle::Dashed,
            right: LineStyle::Solid,
            bottom: LineStyle::Dashed,
            left: LineStyle::Solid,
        })
    );
    assert_eq!(
        FourSides::<LineStyle>::parse("solid dotted dashed none solid"),
        Ok(FourSides {
            top: LineStyle::Solid,
            right: LineStyle::Dotted,
            bottom: LineStyle::Dashed,
            left: LineStyle::NoLine,
        })
    );
    assert_eq!(FourSides::<LineStyle>::parse(""), Err(PropertyParseError::EndOfInput));
    assert_eq!(FourSides::<LineStyle>::parse("3px solid"), Err(PropertyParseError::UnexpectedToken));
}

fn dimension(thousandths: i32, unit: &str) -> SpecifiedLength {
    SpecifiedLength::from_dimension(Number { thousandths }, unit).unwrap()
}

#[test]
fn tests_test_specified_length() {
    if let SpecifiedLength::Em(value) = SpecifiedLength::parse("2em").unwrap() {
        assert_eq!(value, Number { thousandths: 2000 });
    } else {
        assert!(false);
    }

    let one_inch = SpecifiedLength::parse("96px").unwrap();

    if let SpecifiedLength::Absolute(value) = one_inch {
        assert_eq!(value, Length::from_px(96));
    } else {
        assert!(false);
    }

    assert_eq!(SpecifiedLength::parse("72pt").unwrap(), one_inch);
    assert_eq!(SpecifiedLength::parse("1in").unwrap(), one_inch);
    assert_eq!(SpecifiedLength::parse("2.54cm").unwrap(), one_inch);
    assert_eq!(SpecifiedLength::parse("25.4mm").unwrap(), one_inch);
    assert_eq!(SpecifiedLength::parse("6pc").unwrap(), one_inch);
}

#[test]
fn test_number() {
    let Number { thousandths } = Number::parse("1.5").unwrap();
    assert_eq!(thousandths, 1500);
}

#[test]
fn lengths_in_absolute_units_are_one_length() {
    assert_eq!(dimension(2000, "em"), SpecifiedLength::Em(Number { thousandths: 2000 }));
    let one_inch = dimension(96000, "px");
    assert_eq!(one_inch, SpecifiedLength::Absolute(Length::from_px(96)));
    assert_eq!(dimension(72000, "pt"), one_inch);
    assert_eq!(dimension(1000, "in"), one_inch);
    assert_eq!(dimension(2540, "cm"), one_inch);
    assert_eq!(dimension(25400, "mm"), one_inch);
    assert_eq!(dimension(6000, "pc"), one_inch);
    assert_eq!(dimension(1000, "IN"), one_inch);
}

#[test]
fn lengths_round_down_to_a_unit() {
    // A point is 85 units and a third.
    assert_eq!(dimension(1000, "pt"), SpecifiedLength::Absolute(Length::new(85)));
    assert_eq!(dimension(-1000, "pt"), SpecifiedLength::Absolute(Length::new(-86)));
    assert_eq!(dimension(500, "px"), SpecifiedLength::Absolute(Length::new(32)));
    assert_eq!(dimension(i32::MAX, "cm"), SpecifiedLength::Absolute(Length::new(5194543120)));
}

#[test]
fn a_length_needs_a_unit_that_is_known() {
    assert_eq!(
        SpecifiedLength::from_dimension(Number { thousandths: 1000 }, "furlong"),
        Err(PropertyParseError::UnknownUnit)
    );
    assert_eq!(
        SpecifiedLength::from_number(Number { thousandths: 0 }),
        Ok(SpecifiedLength::Absolute(Length::zero()))
    );
    assert_eq!(
        SpecifiedLength::from_number(Number { thousandths: 1 }),
        Err(PropertyParseError::UnexpectedToken)
    );
}

#[test]
fn font_sizes_are_taken_of_the_font_size() {
    let font_size = Length::from_px(16);
    assert_eq!(Length::from_specified(&dimension(1500, "em"), font_size), Length::from_px(24));
    assert_eq!(Length::from_specified(&dimension(3000, "px"), font_size), Length::from_px(3));
}

#[test]
fn border_widths_have_names() {
    let px = |n: i32| Some(Length::from_px(n));
    let named = |name: &str| match LineWidth::from_keyword(name) {
        Some(LineWidth(LengthOrPercentage::Length(l))) => Some(l),
        _ => None,
    };
    assert_eq!(named("thin"), px(1));
    assert_eq!(named("Medium"), px(3));
    assert_eq!(named("THICK"), px(5));
    assert_eq!(named("wide"), None);
}

fn thousandths_of(value: f32) -> Option<i32> {
    from_float_bits(value.to_bits()).map(|number| number.thousandths)
}

#[test]
fn floats_are_read_to_the_nearest_thousandth() {
    assert_eq!(thousandths_of(0.0), Some(0));
    assert_eq!(thousandths_of(-0.0), Some(0));
    assert_eq!(thousandths_of(1.0), Some(1000));
    assert_eq!(thousandths_of(-1.0), Some(-1000));
    assert_eq!(thousandths_of(1.5), Some(1500));
    assert_eq!(thousandths_of(2.54), Some(2540));
    assert_eq!(thousandths_of(25.4), Some(25400));
    assert_eq!(thousandths_of(0.1), Some(100));
    assert_eq!(thousandths_of(-0.3), Some(-300));
    assert_eq!(thousandths_of(0.0004), Some(0));
    assert_eq!(thousandths_of(0.0005), Some(1));
    assert_eq!(thousandths_of(0.0015), Some(2));
    assert_eq!(thousandths_of(-0.0006), Some(-1));
    assert_eq!(thousandths_of(1234.5678), Some(1234568));
    assert_eq!(thousandths_of(2097151.9), Some(2097151875));
    assert_eq!(thousandths_of(f32::MIN_POSITIVE), Some(0));
    assert_eq!(thousandths_of(1.0e-45), Some(0));
}

#[test]
fn floats_that_have_no_thousandths_are_refused() {
    assert_eq!(thousandths_of(f32::INFINITY), None);
    assert_eq!(thousandths_of(f32::NEG_INFINITY), None);
    assert_eq!(thousandths_of(f32::NAN), None);
    assert_eq!(thousandths_of(f32::MAX), None);
    assert_eq!(thousandths_of(2147483.8), None);
    assert_eq!(thousandths_of(8388608.0), None);
    assert_eq!(thousandths_of(2147483.5), Some(2147483500));
    assert_eq!(thousandths_of(-2147483.5), Some(-2147483500));
}

#[test]
fn numbers_and_percentages_are_read_from_css() {
    assert_eq!(Number::parse("-0.25"), Ok(Number { thousandths: -250 }));
    assert_eq!(Number::parse("3"), Ok(Number { thousandths: 3000 }));
    assert_eq!(Number::parse("3px"), Err(PropertyParseError::UnexpectedToken));
    assert_eq!(Number::parse(""), Err(PropertyParseError::EndOfInput));
    assert_eq!(Number::parse("1e30"), Err(PropertyParseError::UnexpectedToken));
    assert_eq!(Percentage::parse("50%"), Ok(Percentage { thousandths: 500 }));
    assert_eq!(Percentage::parse("12.5%"), Ok(Percentage { thousandths: 125 }));
    assert_eq!(Percentage::parse("50"), Err(PropertyParseError::UnexpectedToken));
    assert_eq!(Percentage::parse(""), Err(PropertyParseError::EndOfInput));
}

#[test]
fn lengths_are_read_from_css() {
    assert_eq!(SpecifiedLength::parse("0"), Ok(SpecifiedLength::Absolute(Length::zero())));
    assert_eq!(SpecifiedLength::parse("1"), Err(PropertyParseError::UnexpectedToken));
    assert_eq!(SpecifiedLength::parse("1fathom"), Err(PropertyParseError::UnknownUnit));
    assert_eq!(SpecifiedLength::parse("red"), Err(PropertyParseError::UnexpectedToken));
    assert_eq!(SpecifiedLength::parse(""), Err(PropertyParseError::EndOfInput));
    assert_eq!(
        SpecifiedLength::parse("-1.5PX"),
        Ok(SpecifiedLength::Absolute(Length::new(-96)))
    );
    assert_eq!(
        SpecifiedLengthOrPercentage::parse("10%"),
        Ok(SpecifiedLengthOrPercentage::Percentage(Percentage { thousandths: 100 }))
    );
    assert_eq!(
        SpecifiedLengthOrPercentage::parse("2em"),
        Ok(SpecifiedLengthOrPercentage::Length(SpecifiedLength::Em(Number { thousandths: 2000 })))
    );
    assert_eq!(
        SpecifiedLengthOrPercentage::parse("bold"),
        Err(PropertyParseError::UnexpectedToken)
    );
    let font_size = Length::from_px(10);
    assert!(matches!(
        SpecifiedLengthOrPercentage::parse("2em").unwrap().computed(font_size),
        LengthOrPercentage::Length(l) if l == Length::from_px(20)
    ));
}

#[test]
fn border_widths_are_read_from_css() {
    let absolute = |px: i32| {
        Ok(SpecifiedLineWidth(SpecifiedLengthOrPercentage::Length(SpecifiedLength::Absolute(
            Length::from_px(px),
        ))))
    };
    assert_eq!(SpecifiedLineWidth::parse("thin"), absolute(1));
    assert_eq!(SpecifiedLineWidth::parse("medium"), absolute(3));
    assert_eq!(SpecifiedLineWidth::parse("thick"), absolute(5));
    assert_eq!(SpecifiedLineWidth::parse("7px"), absolute(7));
    assert_eq!(
        SpecifiedLineWidth::parse("5%"),
        Ok(SpecifiedLineWidth(SpecifiedLengthOrPercentage::Percentage(Percentage {
            thousandths: 50
        })))
    );
    assert_eq!(SpecifiedLineWidth::parse("wide"), Err(PropertyParseError::UnexpectedToken));
    assert_eq!(SpecifiedLineWidth::parse(""), Err(PropertyParseError::EndOfInput));
}

fn width_px(px: i32) -> Option<SpecifiedLineWidth> {
    Some(SpecifiedLineWidth(SpecifiedLengthOrPercentage::Length(SpecifiedLength::Absolute(
        Length::from_px(px),
    ))))
}

#[test]
fn a_border_side_is_read_in_any_order() {
    let red = Some(Color::RGBA(RGBA(255, 0, 0, 255)));
    let all = Ok(BorderSide { style: Some(LineStyle::Solid), color: red, width: width_px(2) });
    assert_eq!(BorderSide::parse("2px solid red"), all);
    assert_eq!(BorderSide::parse("red 2px solid"), all);
    assert_eq!(BorderSide::parse("solid  /* any */ #f00 2px"), all);
    assert_eq!(BorderSide::parse("solid rgb(255, 0, 0) 2px"), all);
    assert_eq!(
        BorderSide::parse("dotted"),
        Ok(BorderSide { style: Some(LineStyle::Dotted), color: None, width: None })
    );
    assert_eq!(
        BorderSide::parse("thick currentcolor"),
        Ok(BorderSide { style: None, color: Some(Color::CurrentColor), width: width_px(5) })
    );
    assert_eq!(
        BorderSide::parse("0 solid #e66465"),
        Ok(BorderSide {
            style: Some(LineStyle::Solid),
            color: Some(Color::RGBA(RGBA(0xe6, 0x64, 0x65, 255))),
            width: width_px(0),
        })
    );
}

#[test]
fn a_border_side_takes_each_part_once() {
    // The second line style is not taken in, and what follows it is not
    // looked at.
    assert_eq!(
        BorderSide::parse("solid dashed red"),
        Ok(BorderSide { style: Some(LineStyle::Solid), color: None, width: None })
    );
    assert_eq!(
        BorderSide::parse("red blue"),
        Ok(BorderSide { style: None, color: Some(Color::RGBA(RGBA(255, 0, 0, 255))), width: None })
    );
    assert_eq!(BorderSide::parse(""), Err(PropertyParseError::EndOfInput));
    assert_eq!(BorderSide::parse("  "), Err(PropertyParseError::EndOfInput));
    assert_eq!(BorderSide::parse("bold solid"), Err(PropertyParseError::UnexpectedToken));
    assert_eq!(BorderSide::parse("12"), Err(PropertyParseError::UnexpectedToken));
}

#[test]
fn a_border_side_is_made_of_what_its_parts_read_as() {
    let style = ComponentReading { style: Some(LineStyle::Dashed), color: None, width: None };
    let width = ComponentReading { style: None, color: None, width: width_px(1) };
    let nothing = ComponentReading { style: None, color: None, width: None };
    assert_eq!(
        BorderSide::from_readings(&vec![width, style, nothing, style]),
        Ok(BorderSide { style: Some(LineStyle::Dashed), color: None, width: width_px(1) })
    );
    assert_eq!(
        BorderSide::from_readings(&vec![width, width, style]),
        Ok(BorderSide { style: None, color: None, width: width_px(1) })
    );
    assert_eq!(BorderSide::from_readings(&vec![nothing, style]), Err(PropertyParseError::UnexpectedToken));
    assert_eq!(BorderSide::from_readings(&vec![]), Err(PropertyParseError::EndOfInput));
}

#[test]
fn one_border_stands_for_four_sides() {
    let sides = BorderFourSides::parse("1px dotted").unwrap();
    assert_eq!(sides.style_top, Some(LineStyle::Dotted));
    assert_eq!(sides.style_right, Some(LineStyle::Dotted));
    assert_eq!(sides.style_bottom, Some(LineStyle::Dotted));
    assert_eq!(sides.style_left, Some(LineStyle::Dotted));
    assert_eq!(sides.width_top, width_px(1));
    assert_eq!(sides.width_left, width_px(1));
    assert_eq!(sides.color_top, None);
    assert_eq!(sides.color_bottom, None);
    assert_eq!(BorderFourSides::parse("wide"), Err(PropertyParseError::UnexpectedToken));
}
