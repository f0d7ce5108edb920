//! A run of text in one font, built glyph by glyph, with its advance width
//! measured on demand and remembered until the text changes.

use vstd::prelude::*;

use crate::graphics_engine::font::Font;
use crate::graphics_engine::font::FontError;
use crate::graphics_engine::font::spec_text_width;
use crate::style::values::length::Length;

verus! {

pub struct ShapedSegment {
    pub font: Font,
    pub glyphs: Vec<char>,
    /// The advance width of the glyphs, where it has been measured since
    /// the last glyph was added.
    pub advance_width: Option<Length>,
}

/// What `save` keeps of a segment: how many glyphs it had, and the width
/// that it remembered.
#[derive(Copy, Clone, Debug)]
pub struct ShapedSegmentState {
    pub glyphs: usize,
    pub advance_width: Option<Length>,
}

/// A segment as a value: its font, its glyphs and the width it remembers.
pub struct ShapedSegmentView {
    pub font: Font,
    pub glyphs: Seq<char>,
    pub advance_width: Option<Length>,
}

/// `glyphs` without the spaces at its end.
pub open spec fn spec_strip_space(glyphs: Seq<char>) -> Seq<char>
    decreases glyphs.len(),
{
    if glyphs.len() > 0 && glyphs.last() == ' ' {
        spec_strip_space(glyphs.drop_last())
    } else {
        glyphs
    }
}

impl ShapedSegmentView {
    /// The width that the font gives the glyphs.
    pub open spec fn measured(self) -> Option<Length> {
        spec_text_width(self.font.0.advances@, self.glyphs)
    }

    /// What a query for the width returns: the remembered width, else the
    /// measured one, else an error.
    pub open spec fn queried(self) -> Result<Length, FontError> {
        match self.advance_width {
            Some(width) => Ok(width),
            None => match self.measured() {
                Some(width) => Ok(width),
                None => Err(FontError::GeneralError),
            },
        }
    }

    /// The width that is remembered after a query: the one that the query
    /// returned.
    pub open spec fn after_query(self) -> Option<Length> {
        match self.queried() {
            Ok(width) => Some(width),
            Err(_) => None,
        }
    }

    /// A remembered width is the width of the glyphs.
    pub open spec fn wf(self) -> bool {
        self.advance_width matches Some(width) ==> self.measured() == Some(width)
    }

    /// The segment as it is after going back to `state`: its first
    /// `state.glyphs` glyphs, or all where there are fewer, with the width
    /// that `state` remembers.
    pub open spec fn restored(self, state: ShapedSegmentState) -> ShapedSegmentView {
        ShapedSegmentView {
            font: self.font,
            glyphs: if state.glyphs <= self.glyphs.len() {
                self.glyphs.take(state.glyphs as int)
            } else {
                self.glyphs
            },
            advance_width: state.advance_width,
        }
    }
}

impl View for ShapedSegment {
    type V = ShapedSegmentView;

    open spec fn view(&self) -> ShapedSegmentView {
        ShapedSegmentView {
            font: self.font,
            glyphs: self.glyphs@,
            advance_width: self.advance_width,
        }
    }
}

impl ShapedSegment {
    /// The segment that holds `text` in `font`.
    pub fn shape(text: &str, font: Font) -> (r: Result<ShapedSegment, FontError>)
        ensures
            r matches Ok(segment) && segment@ == (ShapedSegmentView {
                font,
                glyphs: text@,
                advance_width: None,
            }),
    {
        let mut s = ShapedSegment::new(font);
        match s.append(text) {
            Ok(()) => Ok(s),
            Err(e) => Err(e),
        }
    }

    /// The empty segment in `font`.
    pub fn new(font: Font) -> (r: ShapedSegment)
        ensures
            r@ == (ShapedSegmentView { font, glyphs: Seq::<char>::empty(), advance_width: None }),
            r@.wf(),
    {
        ShapedSegment { font, glyphs: Vec::new(), advance_width: None }
    }

    /// Adds the characters of `text` at the end.
    pub fn append(&mut self, text: &str) -> (r: Result<(), FontError>)
        ensures
            r == Ok::<(), FontError>(()),
            final(self)@ == (ShapedSegmentView {
                font: old(self).font,
                glyphs: old(self).glyphs@ + text@,
                advance_width: None,
            }),
    {
        self.advance_width = None;
        for ch in it: text.chars()
            invariant
                it.seq() == text@,
                self.font == old(self).font,
                self.advance_width is None,
                self.glyphs@ == old(self).glyphs@ + it.history(),
        {
            let appended = self.append_char(ch);
            assert(self.glyphs@ =~= old(self).glyphs@ + it.history().push(ch));
        }
        assert(self.glyphs@ =~= old(self).glyphs@ + text@);
        Ok(())
    }

    /// Adds `ch` at the end and forgets the width. Never fails.
    pub fn append_char(&mut self, ch: char) -> (r: Result<(), FontError>)
        ensures
            r == Ok::<(), FontError>(()),
            final(self)@ == (ShapedSegmentView {
                font: old(self).font,
                glyphs: old(self).glyphs@.push(ch),
                advance_width: None,
            }),
    {
        self.advance_width = None;
        self.glyphs.push(ch);
        Ok(())
    }

    /// The number of glyphs and the remembered width, to come back to.
    pub fn save(&self) -> (r: ShapedSegmentState)
        ensures
            r.glyphs == self.glyphs@.len(),
            r.advance_width == self.advance_width,
    {
        ShapedSegmentState { glyphs: self.glyphs.len(), advance_width: self.advance_width }
    }

    /// Goes back to `state`: drops the glyphs after the first `state.glyphs`
    /// and takes the width that `state` remembers.
    pub fn restore(&mut self, state: &ShapedSegmentState)
        ensures
            final(self)@ == old(self)@.restored(*state),
    {
        self.glyphs.truncate(state.glyphs);
        self.advance_width = state.advance_width;
    }

    /// The advance width of the glyphs: the remembered one where there is
    /// one, else the whole text measured anew in the font, and remembered.
    /// Fails where the font lacks a glyph of the text; nothing changes then.
    pub fn get_advance_width(&mut self) -> (r: Result<Length, FontError>)
        ensures
            final(self).font == old(self).font,
            final(self).glyphs@ == old(self).glyphs@,
            final(self).advance_width == old(self)@.after_query(),
            r == old(self)@.queried(),
            old(self)@.wf() ==> final(self)@.wf(),
            old(self)@.wf() ==> (r is Ok <==> old(self)@.measured() is Some),
            old(self)@.wf() && r is Ok ==> Some(r->Ok_0) == old(self)@.measured(),
    {
        if let Some(l) = self.advance_width {
            Ok(l)
        } else {
            match self.font.string_metrics(&self.glyphs) {
                Ok(sm) => {
                    let width = sm.width;
                    self.advance_width = Some(width);
                    Ok(width)
                },
                Err(e) => Err(e),
            }
        }
    }

    /// Drops the spaces at the end and forgets the width.
    pub fn strip_space(&mut self)
        ensures
            final(self)@ == (ShapedSegmentView {
                font: old(self).font,
                glyphs: spec_strip_space(old(self).glyphs@),
                advance_width: None,
            }),
    {
        self.advance_width = None;
        while self.glyphs.len() > 0 && self.glyphs[self.glyphs.len() - 1] == ' '
            invariant
                self.font == old(self).font,
                self.advance_width is None,
                spec_strip_space(self.glyphs@) == spec_strip_space(old(self).glyphs@),
            decreases self.glyphs.len(),
        {
            self.glyphs.pop();
        }
    }

    /// Whether the segment holds no glyph.
    pub fn empty(&self) -> (r: bool)
        ensures
            r == (self.glyphs@.len() == 0),
    {
        self.glyphs.len() == 0
    }
}

/// Saving a well-formed segment, adding glyphs to it and restoring it gives
/// back the segment as it was saved, still well formed.
pub proof fn lemma_restore_after_append(
    saved: ShapedSegmentView,
    state: ShapedSegmentState,
    appended: Seq<char>,
    later_width: Option<Length>,
)
    requires
        saved.wf(),
        state.glyphs == saved.glyphs.len(),
        state.advance_width == saved.advance_width,
    ensures
        (ShapedSegmentView {
            font: saved.font,
            glyphs: saved.glyphs + appended,
            advance_width: later_width,
        }).restored(state) == saved,
{
    assert((saved.glyphs + appended).take(saved.glyphs.len() as int) =~= saved.glyphs);
}

} // verus!
