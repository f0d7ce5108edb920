use sinab::graphics_engine::font::Font;
use sinab::graphics_engine::font::FontError;
use sinab::graphics_engine::font::FontImpl;
use sinab::graphics_engine::font::GlyphAdvance;
use sinab::graphics_engine::renderer::Fontface;
use sinab::graphics_engine::renderer::GContext;
use sinab::graphics_engine::renderer::GContextImpl;
use sinab::graphics_engine::shaped_segment::ShapedSegment;
use sinab::primitives::RGBA;
use sinab::style::properties::ComputedValues;
use sinab::style::values::fontfamily::FontFamily;
use sinab::style::values::fonts::FontStyle;
use sinab::style::values::fonts::FontWeight;
use sinab::style::values::length::Length;
use sinab::style::values::length::Number;
use sinab::utils::to_chars;

fn px(n: i32) -> Length {
    Length::from_px(n)
}

fn advances() -> Vec<GlyphAdvance> {
    vec![
        GlyphAdvance { glyph: ' ', advance: px(10) },
        GlyphAdvance { glyph: 'a', advance: px(20) },
        GlyphAdvance { glyph: 'b', advance: px(30) },
        // A second entry for a glyph is never reached.
        GlyphAdvance { glyph: 'a', advance: px(99) },
    ]
}

fn font() -> Font {
    Font::new("serif", FontStyle::Italic, FontWeight::Bold, px(16), px(12), px(4), advances())
        .unwrap()
}

#[test]
fn a_font_measures_text_glyph_by_glyph() {
    let font = font();
    let metrics = font.string_metrics(&to_chars("ab a")).unwrap();
    assert_eq!(metrics.width, px(80));
    assert_eq!(metrics.ascent, px(12));
    assert_eq!(metrics.descent, px(4));
    assert_eq!(font.string_metrics(&to_chars("")).unwrap().width, px(0));
    assert_eq!(font.get_ascent(), px(12));
    assert_eq!(font.get_descent(), px(4));
    assert_eq!(font.get_ex(), px(8));
    assert_eq!(font.0.get_space_advance_width(), px(10));
    assert_eq!(font.0.calculate_linespacing(Number { thousandths: 1200 }), Length::new(1228));
}

#[test]
fn a_font_cannot_measure_a_glyph_that_it_lacks() {
    assert!(matches!(font().string_metrics(&to_chars("abc")), Err(FontError::GeneralError)));
}

#[test]
fn a_font_needs_the_space() {
    let no_space = vec![GlyphAdvance { glyph: 'a', advance: px(20) }];
    let made = FontImpl::new(
        "serif",
        FontStyle::Normal,
        FontWeight::Normal,
        px(16),
        px(12),
        px(4),
        no_space,
    );
    assert!(matches!(made, Err(FontError::GeneralError)));
}

#[test]
fn a_font_draws_in_a_context_of_its_own() {
    let font = font();
    let gc = font.0.graphics_context();
    assert_eq!(gc.0.fontfamily(), "serif");
    assert_eq!(gc.0.fontface(), Fontface::BoldItalics);
    assert_eq!(gc.0.fontsize(), px(16));
    assert_eq!(gc.0.color(), RGBA(0, 0, 0, 255));
}

#[test]
fn a_font_follows_the_computed_style() {
    let mut style = ComputedValues::initial();
    let sans = Font::new_from_computed_values(&style, px(12), px(4), advances()).unwrap();
    assert_eq!(sans.0.name, "sans");
    assert_eq!(sans.0.size, px(16));
    style.font.font_family = FontFamily::GenericMonospace;
    let mono = Font::new_from_computed_values(&style, px(12), px(4), advances()).unwrap();
    assert_eq!(mono.0.name, "mono");
    style.font.font_family = FontFamily::GenericFantasy;
    let fantasy = Font::new_from_computed_values(&style, px(12), px(4), advances()).unwrap();
    assert_eq!(fantasy.0.name, "sans");
    style.font.font_family = FontFamily::FamilyName("Times".to_string());
    style.font.font_weight = FontWeight::Bold;
    let times = Font::new_from_computed_values(&style, px(12), px(4), advances()).unwrap();
    assert_eq!(times.0.name, "Times");
    assert_eq!(times.0.gc.0.fontface(), Fontface::Bold);
}

#[test]
fn a_segment_remembers_its_width_until_it_grows() {
    let mut segment = ShapedSegment::new(font());
    assert!(segment.empty());
    assert_eq!(segment.get_advance_width().unwrap(), px(0));
    segment.append_char('a').unwrap();
    assert!(!segment.empty());
    assert!(segment.advance_width.is_none());
    assert_eq!(segment.get_advance_width().unwrap(), px(20));
    assert_eq!(segment.advance_width, Some(px(20)));
    segment.append("b a").unwrap();
    assert!(segment.advance_width.is_none());
    assert_eq!(segment.get_advance_width().unwrap(), px(80));
}

#[test]
fn a_segment_goes_back_to_what_was_saved() {
    let mut segment = ShapedSegment::shape("ab", font()).unwrap();
    assert_eq!(segment.get_advance_width().unwrap(), px(50));
    let state = segment.save();
    segment.append_char(' ').unwrap();
    segment.append_char('a').unwrap();
    assert_eq!(segment.get_advance_width().unwrap(), px(80));
    segment.restore(&state);
    assert_eq!(segment.glyphs, to_chars("ab"));
    assert_eq!(segment.advance_width, Some(px(50)));
    assert_eq!(segment.get_advance_width().unwrap(), px(50));
}

#[test]
fn a_segment_fails_on_a_glyph_that_the_font_lacks() {
    let mut segment = ShapedSegment::shape("az", font()).unwrap();
    assert!(matches!(segment.get_advance_width(), Err(FontError::GeneralError)));
    assert!(segment.advance_width.is_none());
    assert_eq!(segment.glyphs, to_chars("az"));
}

#[test]
fn stripping_drops_the_spaces_at_the_end() {
    let mut segment = ShapedSegment::shape(" a b  ", font()).unwrap();
    segment.strip_space();
    assert_eq!(segment.glyphs, to_chars(" a b"));
    segment.strip_space();
    assert_eq!(segment.glyphs, to_chars(" a b"));
    let mut spaces = ShapedSegment::shape("   ", font()).unwrap();
    spaces.strip_space();
    assert!(spaces.empty());
}

#[test]
fn a_fontface_only_gains_attributes() {
    let mut gc = GContextImpl::new();
    assert_eq!(gc.fontface(), Fontface::Plain);
    gc.modify_fontface(Fontface::Plain);
    assert_eq!(gc.fontface(), Fontface::Plain);
    gc.modify_fontface(Fontface::Italics);
    assert_eq!(gc.fontface(), Fontface::Italics);
    gc.modify_fontface(Fontface::Bold);
    assert_eq!(gc.fontface(), Fontface::BoldItalics);
    gc.modify_fontface(Fontface::Plain);
    assert_eq!(gc.fontface(), Fontface::BoldItalics);
    let mut bold = GContextImpl::new();
    bold.set_fontweight(FontWeight::Normal);
    assert_eq!(bold.fontface(), Fontface::Plain);
    bold.set_fontweight(FontWeight::Bold);
    assert_eq!(bold.fontface(), Fontface::Bold);
    bold.set_fontstyle(FontStyle::Normal);
    assert_eq!(bold.fontface(), Fontface::Bold);
    bold.set_fontstyle(FontStyle::Oblique);
    assert_eq!(bold.fontface(), Fontface::BoldItalics);
    bold.modify_fontface(Fontface::BoldItalics);
    assert_eq!(bold.fontface(), Fontface::BoldItalics);
}

#[test]
fn a_fontface_has_a_device_number_and_a_name() {
    for face in [Fontface::Plain, Fontface::Bold, Fontface::Italics, Fontface::BoldItalics] {
        assert_eq!(Fontface::from_code(face.code()), face);
    }
    assert_eq!(Fontface::Bold.code(), 2);
    assert_eq!(Fontface::from_code(0), Fontface::Plain);
    assert_eq!(Fontface::from_code(17), Fontface::Plain);
    assert_eq!(Fontface::Plain.to_string(), "Plain");
    assert_eq!(Fontface::BoldItalics.to_string(), "BoldItalics");
}

#[test]
fn a_context_keeps_what_is_set() {
    let mut gc = GContextImpl::new();
    gc.set_color(RGBA(1, 2, 3, 4));
    gc.set_fill(RGBA(5, 6, 7, 8));
    gc.set_fontfamily("mono");
    gc.set_fontsize(px(20));
    gc.set_lineheight(Number { thousandths: 1500 });
    gc.set_fontface(Fontface::Italics);
    assert_eq!(gc.color(), RGBA(1, 2, 3, 4));
    assert_eq!(gc.fill(), RGBA(5, 6, 7, 8));
    assert_eq!(gc.fontfamily(), "mono");
    assert_eq!(gc.fontsize(), px(20));
    assert_eq!(gc.lineheight(), Number { thousandths: 1500 });
    assert_eq!(gc.fontface(), Fontface::Italics);
    let shared = GContext::wrap(gc);
    let copy = shared.new_from();
    assert_eq!(copy.0.fontfamily(), "mono");
    assert_eq!(copy.0.fill(), RGBA(5, 6, 7, 8));
    let fresh = GContext::new();
    assert_eq!(fresh.0.fontfamily(), "");
    assert_eq!(fresh.0.fontface(), Fontface::Plain);
    assert_eq!(fresh.share().0.fontsize(), px(16));
}

#[test]
fn a_font_sets_lines_by_its_line_height() {
    let metrics = font().0.font_metrics();
    assert_eq!(metrics.fontsize, px(16));
    assert_eq!(metrics.lineheight, Number { thousandths: 1200 });
    assert_eq!(metrics.linespacing, Length::new(1228));
    assert_eq!(metrics.linedescent, px(4));
    assert_eq!(metrics.lineascent, Length::new(1228 - 256));
    assert_eq!(metrics.space_width, px(10));
}
