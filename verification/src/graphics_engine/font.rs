//! Fonts: the metrics of a face at one size, and the advance of each glyph
//! that it can measure.

use vstd::prelude::*;
use std::rc::Rc;

use crate::graphics_engine::renderer::Fontface;
use crate::graphics_engine::renderer::GContext;
use crate::graphics_engine::renderer::GContextImpl;
use crate::primitives::RGBA;
use crate::style::properties::ComputedValues;
use crate::style::values::fontfamily::FontFamily;
use crate::style::values::fonts::FontStyle;
use crate::style::values::fonts::FontWeight;
use crate::style::values::length::Length;
use crate::style::values::length::Number;
use crate::utils::share_rc;

verus! {

#[derive(Copy, Clone, Debug)]
pub struct StringMetrics {
    pub ascent: Length,
    pub descent: Length,
    pub width: Length,
}

/// The measures of a font that set lines of text.
#[derive(Copy, Clone, Debug)]
pub struct FontMetrics {
    pub fontsize: Length,
    /// The height of a line in font sizes.
    pub lineheight: Number,
    /// The distance from baseline to baseline.
    pub linespacing: Length,
    /// The height of a line above the baseline.
    pub lineascent: Length,
    /// The depth of a line below the baseline.
    pub linedescent: Length,
    /// The width of a space.
    pub space_width: Length,
}

/// What a font knows of one glyph: how far it moves the pen.
#[derive(Copy, Clone, Debug)]
pub struct GlyphAdvance {
    pub glyph: char,
    pub advance: Length,
}

/// Signals that a font cannot do what it was asked.
#[derive(Copy, Clone, Debug, PartialEq, Eq, Structural)]
pub enum FontError {
    /// The font has no metrics for a glyph that it was asked to measure.
    GeneralError,
}

/// The advance that the first entry for `glyph` at or after `from` gives.
pub open spec fn spec_advance_from(table: Seq<GlyphAdvance>, glyph: char, from: int) -> Option<
    Length,
>
    decreases table.len() - from,
{
    if from < 0 || from >= table.len() {
        None
    } else if table[from].glyph == glyph {
        Some(table[from].advance)
    } else {
        spec_advance_from(table, glyph, from + 1)
    }
}

/// The advance of `glyph` by `table`, if the table has the glyph.
pub open spec fn spec_advance(table: Seq<GlyphAdvance>, glyph: char) -> Option<Length> {
    spec_advance_from(table, glyph, 0)
}

/// The width of `text` by `table`: the advances of its glyphs added up from
/// the first to the last. `None` if the table lacks one of them.
pub open spec fn spec_text_width(table: Seq<GlyphAdvance>, text: Seq<char>) -> Option<Length>
    decreases text.len(),
{
    if text.len() == 0 {
        Some(Length::spec_zero())
    } else {
        match (spec_text_width(table, text.drop_last()), spec_advance(table, text.last())) {
            (Some(width), Some(advance)) => Some(Length::of(width@ + advance@)),
            _ => None,
        }
    }
}

/// Whether `table` has every glyph of `text`.
pub open spec fn spec_covers(table: Seq<GlyphAdvance>, text: Seq<char>) -> bool {
    forall|i: int| 0 <= i < text.len() ==> spec_advance(table, #[trigger] text[i]) is Some
}

/// A text can be measured exactly when the table has each of its glyphs.
pub proof fn lemma_width_exists_iff_covered(table: Seq<GlyphAdvance>, text: Seq<char>)
    ensures
        spec_text_width(table, text) is Some <==> spec_covers(table, text),
    decreases text.len(),
{
    if text.len() > 0 {
        let front = text.drop_last();
        lemma_width_exists_iff_covered(table, front);
        if spec_covers(table, text) {
            assert forall|i: int| 0 <= i < front.len() implies spec_advance(
                table,
                #[trigger] front[i],
            ) is Some by {
                assert(front[i] == text[i]);
            }
            assert(text.last() == text[text.len() - 1]);
        }
        if spec_text_width(table, text) is Some {
            assert forall|i: int| 0 <= i < text.len() implies spec_advance(
                table,
                #[trigger] text[i],
            ) is Some by {
                if i < front.len() {
                    assert(front[i] == text[i]);
                }
            }
        }
    }
}

/// The family name by which the device knows `family`. The generic
/// families without a face of their own are drawn in the sans face.
pub open spec fn spec_family_name(family: FontFamily) -> Seq<char> {
    match family {
        FontFamily::GenericSans => "sans"@,
        FontFamily::GenericSerif => "serif"@,
        FontFamily::GenericMonospace => "mono"@,
        FontFamily::FamilyName(s) => s@,
        _ => "sans"@,
    }
}

pub fn family_name(family: &FontFamily) -> (r: &str)
    ensures
        r@ == spec_family_name(*family),
{
    match family {
        FontFamily::GenericSans => "sans",
        FontFamily::GenericSerif => "serif",
        FontFamily::GenericMonospace => "mono",
        FontFamily::FamilyName(s) => s.as_str(),
        _ => "sans",
    }
}

#[derive(Debug)]
pub struct FontImpl {
    pub name: String,
    pub style: FontStyle,
    pub weight: FontWeight,
    pub size: Length,
    pub ascent: Length,
    pub descent: Length,
    pub space_advance_width: Length,
    pub advances: Vec<GlyphAdvance>,
    pub gc: GContext,
}

impl FontImpl {
    /// The face in which a device draws a font of `style` and `weight`.
    pub open spec fn spec_face(style: FontStyle, weight: FontWeight) -> Fontface {
        let slanted = if style == FontStyle::Normal {
            Fontface::Plain
        } else {
            Fontface::Italics
        };
        if weight == FontWeight::Bold {
            slanted.spec_with_bold()
        } else {
            slanted
        }
    }

    /// Whether `gc` is the graphics context of a font of family `name`,
    /// `style`, `weight` and `size`: a fresh context with these set.
    pub open spec fn spec_is_context_of(
        gc: GContextImpl,
        name: Seq<char>,
        style: FontStyle,
        weight: FontWeight,
        size: Length,
    ) -> bool {
        &&& gc.fontfamily@ == name
        &&& gc.color == RGBA(0, 0, 0, 255)
        &&& gc.fill == RGBA(255, 255, 255, 255)
        &&& gc.lineheight == (Number { thousandths: 1200 })
        &&& gc.fontsize == size
        &&& gc.fontface == FontImpl::spec_face(style, weight)
    }

    /// The font of the given family, style, weight and size, with the given
    /// ascent and descent and the given glyphs. Fails where the glyphs do not
    /// include the space, whose advance every font keeps at hand.
    pub fn new(
        name: &str,
        style: FontStyle,
        weight: FontWeight,
        size: Length,
        ascent: Length,
        descent: Length,
        advances: Vec<GlyphAdvance>,
    ) -> (r: Result<FontImpl, FontError>)
        ensures
            match spec_advance(advances@, ' ') {
                Some(space) => r matches Ok(font) && {
                    &&& font.name@ == name@
                    &&& font.style == style
                    &&& font.weight == weight
                    &&& font.size == size
                    &&& font.ascent == ascent
                    &&& font.descent == descent
                    &&& font.space_advance_width == space
                    &&& font.advances@ == advances@
                    &&& FontImpl::spec_is_context_of(*font.gc.0, name@, style, weight, size)
                },
                None => r == Err::<FontImpl, FontError>(FontError::GeneralError),
            },
    {
        let mut gc = GContextImpl::new();
        gc.set_fontfamily(name);
        gc.set_fontstyle(style);
        gc.set_fontweight(weight);
        gc.set_fontsize(size);
        match lookup_advance(&advances, ' ') {
            Some(space) => Ok(
                FontImpl {
                    name: name.to_owned(),
                    style,
                    weight,
                    size,
                    ascent,
                    descent,
                    space_advance_width: space,
                    advances,
                    gc: GContext::wrap(gc),
                },
            ),
            None => Err(FontError::GeneralError),
        }
    }

    /// The metrics of `label` in this font: the font's ascent and descent,
    /// and the sum of the advances of the glyphs.
    pub open spec fn spec_string_metrics(&self, label: Seq<char>) -> Result<
        StringMetrics,
        FontError,
    > {
        match spec_text_width(self.advances@, label) {
            Some(width) => Ok(StringMetrics { ascent: self.ascent, descent: self.descent, width }),
            None => Err(FontError::GeneralError),
        }
    }

    pub fn string_metrics(&self, label: &Vec<char>) -> (r: Result<StringMetrics, FontError>)
        ensures
            r == self.spec_string_metrics(label@),
    {
        let mut width = Length::zero();
        let mut i: usize = 0;
        while i < label.len()
            invariant
                i <= label.len(),
                spec_text_width(self.advances@, label@.take(i as int)) == Some(width),
            decreases label.len() - i,
        {
            proof {
                assert(label@.take(i + 1).drop_last() =~= label@.take(i as int));
                assert(label@.take(i + 1).last() == label@[i as int]);
            }
            match lookup_advance(&self.advances, label[i]) {
                Some(advance) => {
                    width = width + advance;
                },
                None => {
                    proof {
                        lemma_width_exists_iff_covered(self.advances@, label@.take(i + 1));
                        lemma_width_exists_iff_covered(self.advances@, label@);
                        if spec_covers(self.advances@, label@) {
                            assert(label@.take(i + 1)[i as int] == label@[i as int]);
                        }
                    }
                    return Err(FontError::GeneralError);
                },
            }
            i += 1;
        }
        proof {
            assert(label@.take(label.len() as int) =~= label@);
        }
        Ok(StringMetrics { ascent: self.ascent, descent: self.descent, width })
    }

    pub fn get_ascent(&self) -> (r: Length)
        ensures
            r == self.ascent,
    {
        self.ascent
    }

    pub fn get_descent(&self) -> (r: Length)
        ensures
            r == self.descent,
    {
        self.descent
    }

    /// The value of 1ex: half the font size.
    pub fn get_ex(&self) -> (r: Length)
        ensures
            r == self.size.spec_half(),
    {
        self.size.half()
    }

    pub fn get_space_advance_width(&self) -> (r: Length)
        ensures
            r == self.space_advance_width,
    {
        self.space_advance_width
    }

    /// The distance from baseline to baseline at a line height of
    /// `lineheight` font sizes.
    pub fn calculate_linespacing(&self, lineheight: Number) -> (r: Length)
        ensures
            r == self.size.spec_scale(lineheight.thousandths as int),
    {
        self.size * lineheight
    }

    /// The measures of the font at the line height of its graphics
    /// context: lines are the font size times the line height apart, and what
    /// of that is not descent is ascent.
    pub open spec fn spec_font_metrics(&self) -> FontMetrics {
        let linespacing = self.size.spec_scale(self.gc.0.lineheight.thousandths as int);
        FontMetrics {
            fontsize: self.size,
            lineheight: self.gc.0.lineheight,
            linespacing,
            lineascent: linespacing.minus(self.descent),
            linedescent: self.descent,
            space_width: self.space_advance_width,
        }
    }

    pub fn font_metrics(&self) -> (r: FontMetrics)
        ensures
            r == self.spec_font_metrics(),
    {
        let lineheight = self.gc.0.lineheight();
        let linespacing = self.size * lineheight;
        FontMetrics {
            fontsize: self.size,
            lineheight,
            linespacing,
            lineascent: linespacing - self.descent,
            linedescent: self.descent,
            space_width: self.space_advance_width,
        }
    }

    pub fn graphics_context(&self) -> (r: GContext)
        ensures
            r == self.gc,
    {
        self.gc.share()
    }
}

/// The advance of `glyph` by `table`.
pub fn lookup_advance(table: &Vec<GlyphAdvance>, glyph: char) -> (r: Option<Length>)
    ensures
        r == spec_advance(table@, glyph),
{
    let mut i: usize = 0;
    while i < table.len()
        invariant
            i <= table.len(),
            spec_advance(table@, glyph) == spec_advance_from(table@, glyph, i as int),
        decreases table.len() - i,
    {
        if table[i].glyph == glyph {
            return Some(table[i].advance);
        }
        i += 1;
    }
    None
}

/// A shared, read-only handle on a font.
#[derive(Debug)]
pub struct Font(pub Rc<FontImpl>);

impl Font {
    pub fn new(
        name: &str,
        style: FontStyle,
        weight: FontWeight,
        size: Length,
        ascent: Length,
        descent: Length,
        advances: Vec<GlyphAdvance>,
    ) -> (r: Result<Font, FontError>)
        ensures
            match spec_advance(advances@, ' ') {
                Some(space) => r matches Ok(font) && {
                    &&& font.0.name@ == name@
                    &&& font.0.style == style
                    &&& font.0.weight == weight
                    &&& font.0.size == size
                    &&& font.0.ascent == ascent
                    &&& font.0.descent == descent
                    &&& font.0.space_advance_width == space
                    &&& font.0.advances@ == advances@
                    &&& FontImpl::spec_is_context_of(*font.0.gc.0, name@, style, weight, size)
                },
                None => r == Err::<Font, FontError>(FontError::GeneralError),
            },
    {
        match FontImpl::new(name, style, weight, size, ascent, descent, advances) {
            Ok(font) => Ok(Font(Rc::new(font))),
            Err(e) => Err(e),
        }
    }

    /// The font that `style` asks for: its family under the name by which
    /// the device knows it, its font style, weight and size.
    pub fn new_from_computed_values(
        style: &ComputedValues,
        ascent: Length,
        descent: Length,
        advances: Vec<GlyphAdvance>,
    ) -> (r: Result<Font, FontError>)
        ensures
            match spec_advance(advances@, ' ') {
                Some(space) => r matches Ok(font) && {
                    &&& font.0.name@ == spec_family_name(style.font.font_family)
                    &&& font.0.style == style.font.font_style
                    &&& font.0.weight == style.font.font_weight
                    &&& font.0.size == style.font.font_size.0
                    &&& font.0.ascent == ascent
                    &&& font.0.descent == descent
                    &&& font.0.space_advance_width == space
                    &&& font.0.advances@ == advances@
                    &&& FontImpl::spec_is_context_of(
                        *font.0.gc.0,
                        spec_family_name(style.font.font_family),
                        style.font.font_style,
                        style.font.font_weight,
                        style.font.font_size.0,
                    )
                },
                None => r == Err::<Font, FontError>(FontError::GeneralError),
            },
    {
        let family = family_name(&style.font.font_family);
        Font::new(
            family,
            style.font.font_style,
            style.font.font_weight,
            style.font.font_size.0,
            ascent,
            descent,
            advances,
        )
    }

    /// Another handle on the same font.
    pub fn share(&self) -> (r: Font)
        ensures
            r == *self,
    {
        Font(share_rc(&self.0))
    }

    pub fn string_metrics(&self, label: &Vec<char>) -> (r: Result<StringMetrics, FontError>)
        ensures
            r == self.0.spec_string_metrics(label@),
    {
        self.0.string_metrics(label)
    }

    pub fn get_ascent(&self) -> (r: Length)
        ensures
            r == self.0.ascent,
    {
        self.0.ascent
    }

    pub fn get_descent(&self) -> (r: Length)
        ensures
            r == self.0.descent,
    {
        self.0.descent
    }

    pub fn get_ex(&self) -> (r: Length)
        ensures
            r == self.0.size.spec_half(),
    {
        self.0.get_ex()
    }
}

} // verus!
