//! Graphics contexts and the render device.
//!
//! The device records the draw calls that it is given, in order, as plain
//! values; whoever owns a real device replays them onto it.

use vstd::prelude::*;
use std::rc::Rc;

use crate::geom::physical::Rect;
use crate::geom::physical::Vec2;
use crate::graphics_engine::font::Font;
use crate::primitives::RGBA;
use crate::style::values::border::LineStyle;
use crate::style::values::fonts::FontStyle;
use crate::style::values::fonts::FontWeight;
use crate::style::values::length::Length;
use crate::style::values::length::Number;
use crate::utils::share_rc;

verus! {

#[derive(Copy, Clone, Debug, PartialEq, Eq, Structural)]
pub enum Fontface {
    Plain,
    Bold,
    Italics,
    BoldItalics,
}

impl Fontface {
    /// The number by which a device knows the face.
    pub open spec fn spec_code(self) -> int {
        match self {
            Fontface::Plain => 1,
            Fontface::Bold => 2,
            Fontface::Italics => 3,
            Fontface::BoldItalics => 4,
        }
    }

    /// The face that a device's number stands for; an unknown number stands
    /// for `Plain`.
    pub open spec fn spec_from_code(code: int) -> Fontface {
        if code == 2 {
            Fontface::Bold
        } else if code == 3 {
            Fontface::Italics
        } else if code == 4 {
            Fontface::BoldItalics
        } else {
            Fontface::Plain
        }
    }

    /// The face with bold added.
    pub open spec fn spec_with_bold(self) -> Fontface {
        match self {
            Fontface::Plain => Fontface::Bold,
            Fontface::Italics => Fontface::BoldItalics,
            other => other,
        }
    }

    /// The face with italics added.
    pub open spec fn spec_with_italics(self) -> Fontface {
        match self {
            Fontface::Plain => Fontface::Italics,
            Fontface::Bold => Fontface::BoldItalics,
            other => other,
        }
    }

    /// The face with the attributes of `added` added; none is ever taken
    /// away.
    pub open spec fn spec_modified(self, added: Fontface) -> Fontface {
        match added {
            Fontface::Plain => self,
            Fontface::Bold => self.spec_with_bold(),
            Fontface::Italics => self.spec_with_italics(),
            Fontface::BoldItalics => Fontface::BoldItalics,
        }
    }

    pub open spec fn spec_is_bold(self) -> bool {
        self == Fontface::Bold || self == Fontface::BoldItalics
    }

    pub open spec fn spec_is_italic(self) -> bool {
        self == Fontface::Italics || self == Fontface::BoldItalics
    }

    pub fn code(self) -> (r: i32)
        ensures
            r == self.spec_code(),
    {
        match self {
            Fontface::Plain => 1,
            Fontface::Bold => 2,
            Fontface::Italics => 3,
            Fontface::BoldItalics => 4,
        }
    }

    pub fn from_code(code: i32) -> (r: Fontface)
        ensures
            r == Fontface::spec_from_code(code as int),
    {
        match code {
            1 => Fontface::Plain,
            2 => Fontface::Bold,
            3 => Fontface::Italics,
            4 => Fontface::BoldItalics,
            _ => Fontface::Plain,
        }
    }

    /// The name of the face.
    pub fn to_string(&self) -> (r: String)
        ensures
            r@ == match *self {
                Fontface::Plain => "Plain"@,
                Fontface::Bold => "Bold"@,
                Fontface::Italics => "Italics"@,
                Fontface::BoldItalics => "BoldItalics"@,
            },
    {
        match *self {
            Fontface::Plain => "Plain".to_owned(),
            Fontface::Bold => "Bold".to_owned(),
            Fontface::Italics => "Italics".to_owned(),
            Fontface::BoldItalics => "BoldItalics".to_owned(),
        }
    }
}

/// Every face comes back from its device number.
pub proof fn lemma_fontface_code_round_trip(face: Fontface)
    ensures
        Fontface::spec_from_code(face.spec_code()) == face,
{
}

/// Modifying a face keeps what it had and adds what was asked for.
pub proof fn lemma_modified_only_adds(face: Fontface, added: Fontface)
    ensures
        face.spec_modified(added).spec_is_bold() == (face.spec_is_bold() || added.spec_is_bold()),
        face.spec_modified(added).spec_is_italic() == (face.spec_is_italic()
            || added.spec_is_italic()),
{
}

/// A graphics context as a value.
pub struct GContextView {
    pub color: RGBA,
    pub fill: RGBA,
    pub fontfamily: Seq<char>,
    pub fontface: Fontface,
    pub fontsize: Length,
    pub lineheight: Number,
}

impl View for GContextImpl {
    type V = GContextView;

    open spec fn view(&self) -> GContextView {
        GContextView {
            color: self.color,
            fill: self.fill,
            fontfamily: self.fontfamily@,
            fontface: self.fontface,
            fontsize: self.fontsize,
            lineheight: self.lineheight,
        }
    }
}

/// The state that a device draws with.
#[derive(Debug)]
pub struct GContextImpl {
    pub color: RGBA,
    pub fill: RGBA,
    pub fontfamily: String,
    pub fontface: Fontface,
    pub fontsize: Length,
    pub lineheight: Number,
}

impl GContextImpl {
    /// A fresh context draws in black on white, in the plain face of the
    /// device's default family (the empty name), 16 pixels high with a line
    /// height of 1.2.
    pub open spec fn spec_is_fresh(&self) -> bool {
        &&& self.color == RGBA(0, 0, 0, 255)
        &&& self.fill == RGBA(255, 255, 255, 255)
        &&& self.fontfamily@ == Seq::<char>::empty()
        &&& self.fontface == Fontface::Plain
        &&& self.fontsize == (Length { units: 1024 })
        &&& self.lineheight == (Number { thousandths: 1200 })
    }

    pub fn new() -> (r: GContextImpl)
        ensures
            r.spec_is_fresh(),
    {
        GContextImpl {
            color: RGBA(0, 0, 0, 255),
            fill: RGBA(255, 255, 255, 255),
            fontfamily: String::new(),
            fontface: Fontface::Plain,
            fontsize: Length::from_px(16),
            lineheight: Number { thousandths: 1200 },
        }
    }

    /// A context of its own with the same state.
    pub fn copy(&self) -> (r: GContextImpl)
        ensures
            r == *self,
    {
        GContextImpl {
            color: self.color,
            fill: self.fill,
            fontfamily: self.fontfamily.clone(),
            fontface: self.fontface,
            fontsize: self.fontsize,
            lineheight: self.lineheight,
        }
    }

    pub fn set_color(&mut self, color: RGBA)
        ensures
            *final(self) == (GContextImpl { color, ..*old(self) }),
    {
        self.color = color;
    }

    pub fn set_fill(&mut self, color: RGBA)
        ensures
            *final(self) == (GContextImpl { fill: color, ..*old(self) }),
    {
        self.fill = color;
    }

    pub fn set_fontfamily(&mut self, fontfamily: &str)
        ensures
            final(self).fontfamily@ == fontfamily@,
            final(self).color == old(self).color,
            final(self).fill == old(self).fill,
            final(self).fontface == old(self).fontface,
            final(self).fontsize == old(self).fontsize,
            final(self).lineheight == old(self).lineheight,
    {
        self.fontfamily = fontfamily.to_owned();
    }

    pub fn set_fontface(&mut self, fontface: Fontface)
        ensures
            *final(self) == (GContextImpl { fontface, ..*old(self) }),
    {
        self.fontface = fontface;
    }

    /// Adds the attributes of `fontface` to the face that is set: bold on
    /// italics gives bold italics. Never removes one.
    pub fn modify_fontface(&mut self, fontface: Fontface)
        ensures
            *final(self) == (GContextImpl {
                fontface: old(self).fontface.spec_modified(fontface),
                ..*old(self)
            }),
    {
        match fontface {
            Fontface::Plain => {},
            Fontface::Bold => {
                match self.fontface() {
                    Fontface::Plain => self.set_fontface(Fontface::Bold),
                    Fontface::Italics => self.set_fontface(Fontface::BoldItalics),
                    _ => {},
                };
            },
            Fontface::Italics => {
                match self.fontface() {
                    Fontface::Plain => self.set_fontface(Fontface::Italics),
                    Fontface::Bold => self.set_fontface(Fontface::BoldItalics),
                    _ => {},
                };
            },
            Fontface::BoldItalics => self.set_fontface(Fontface::BoldItalics),
        }
    }

    /// Makes the face italic where `style` is italic or oblique.
    pub fn set_fontstyle(&mut self, style: FontStyle)
        ensures
            *final(self) == (GContextImpl {
                fontface: if style == FontStyle::Normal {
                    old(self).fontface
                } else {
                    old(self).fontface.spec_with_italics()
                },
                ..*old(self)
            }),
    {
        match style {
            FontStyle::Italic | FontStyle::Oblique => match self.fontface() {
                Fontface::Plain => self.set_fontface(Fontface::Italics),
                Fontface::Bold => self.set_fontface(Fontface::BoldItalics),
                _ => {},
            },
            _ => {},
        }
    }

    /// Makes the face bold where `weight` is bold.
    pub fn set_fontweight(&mut self, weight: FontWeight)
        ensures
            *final(self) == (GContextImpl {
                fontface: if weight == FontWeight::Bold {
                    old(self).fontface.spec_with_bold()
                } else {
                    old(self).fontface
                },
                ..*old(self)
            }),
    {
        match weight {
            FontWeight::Bold => match self.fontface() {
                Fontface::Plain => self.set_fontface(Fontface::Bold),
                Fontface::Italics => self.set_fontface(Fontface::BoldItalics),
                _ => {},
            },
            _ => {},
        }
    }

    pub fn set_fontsize(&mut self, size: Length)
        ensures
            *final(self) == (GContextImpl { fontsize: size, ..*old(self) }),
    {
        self.fontsize = size;
    }

    pub fn set_lineheight(&mut self, lineheight: Number)
        ensures
            *final(self) == (GContextImpl { lineheight, ..*old(self) }),
    {
        self.lineheight = lineheight;
    }

    pub fn color(&self) -> (r: RGBA)
        ensures
            r == self.color,
    {
        self.color
    }

    pub fn fill(&self) -> (r: RGBA)
        ensures
            r == self.fill,
    {
        self.fill
    }

    pub fn fontfamily(&self) -> (r: &str)
        ensures
            r@ == self.fontfamily@,
    {
        self.fontfamily.as_str()
    }

    pub fn fontface(&self) -> (r: Fontface)
        ensures
            r == self.fontface,
    {
        self.fontface
    }

    pub fn fontsize(&self) -> (r: Length)
        ensures
            r == self.fontsize,
    {
        self.fontsize
    }

    pub fn lineheight(&self) -> (r: Number)
        ensures
            r == self.lineheight,
    {
        self.lineheight
    }
}

/// A shared, read-only handle on a graphics context.
#[derive(Debug)]
pub struct GContext(pub Rc<GContextImpl>);

impl GContext {
    /// A handle on a fresh context.
    pub fn new() -> (r: GContext)
        ensures
            r.0.spec_is_fresh(),
    {
        GContext(Rc::new(GContextImpl::new()))
    }

    /// A handle on a context of its own that starts with the state of this
    /// one.
    pub fn new_from(&self) -> (r: GContext)
        ensures
            *r.0 == *self.0,
    {
        GContext(Rc::new(self.0.copy()))
    }

    /// A handle on `context`.
    pub fn wrap(context: GContextImpl) -> (r: GContext)
        ensures
            *r.0 == context,
    {
        GContext(Rc::new(context))
    }

    /// Another handle on the same context.
    pub fn share(&self) -> (r: GContext)
        ensures
            r == *self,
    {
        GContext(share_rc(&self.0))
    }
}

/// One call on a render device.
pub enum DrawCommand {
    /// Draw `label` with its baseline starting at (`x`, `y`), in the font
    /// and the color of `gc`.
    Text { label: Vec<char>, x: Length, y: Length, gc: GContext },
    /// Fill the rectangle with the fill of `gc`.
    Rect { x: Length, y: Length, width: Length, height: Length, gc: GContext },
    /// Draw a line through `points`.
    Line { points: Vec<Vec2<Length>>, color: RGBA, width: Length, style: LineStyle },
    /// Take note that something is drawn inside `rect`.
    BoundingBox { rect: Rect<Length> },
}

/// A call on a render device as a value.
pub enum DrawCommandView {
    Text { label: Seq<char>, x: Length, y: Length, gc: GContextView },
    Rect { x: Length, y: Length, width: Length, height: Length, gc: GContextView },
    Line { points: Seq<Vec2<Length>>, color: RGBA, width: Length, style: LineStyle },
    BoundingBox { rect: Rect<Length> },
}

impl View for DrawCommand {
    type V = DrawCommandView;

    open spec fn view(&self) -> DrawCommandView {
        match *self {
            DrawCommand::Text { label, x, y, gc } => DrawCommandView::Text {
                label: label@,
                x,
                y,
                gc: gc.0@,
            },
            DrawCommand::Rect { x, y, width, height, gc } => DrawCommandView::Rect {
                x,
                y,
                width,
                height,
                gc: gc.0@,
            },
            DrawCommand::Line { points, color, width, style } => DrawCommandView::Line {
                points: points@,
                color,
                width,
                style,
            },
            DrawCommand::BoundingBox { rect } => DrawCommandView::BoundingBox { rect },
        }
    }
}

/// The calls of `commands` as values, in order.
pub open spec fn spec_command_views(commands: Seq<DrawCommand>) -> Seq<DrawCommandView> {
    Seq::new(commands.len(), |i: int| commands[i]@)
}

/// The context in which a rectangle is filled with `fill`: a fresh one with
/// no outline.
pub open spec fn spec_fill_context(fill: RGBA) -> GContextView {
    GContextView {
        color: RGBA(0, 0, 0, 0),
        fill,
        fontfamily: Seq::empty(),
        fontface: Fontface::Plain,
        fontsize: Length { units: 1024 },
        lineheight: Number { thousandths: 1200 },
    }
}

/// The context in which `font` draws text in `color`: the context of the
/// font with that color.
pub open spec fn spec_text_context(font: Font, color: RGBA) -> GContextView {
    GContextView { color, ..font.0.gc.0@ }
}

/// A device that keeps the calls made on it, in order.
pub struct RenderDevice {
    pub commands: Vec<DrawCommand>,
}

impl View for RenderDevice {
    type V = Seq<DrawCommandView>;

    open spec fn view(&self) -> Seq<DrawCommandView> {
        spec_command_views(self.commands@)
    }
}

impl RenderDevice {
    /// A device on which nothing has been drawn.
    pub fn new() -> (r: RenderDevice)
        ensures
            r@ == Seq::<DrawCommandView>::empty(),
    {
        let r = RenderDevice { commands: Vec::new() };
        assert(r@ =~= Seq::<DrawCommandView>::empty());
        r
    }

    fn record(&mut self, command: DrawCommand)
        ensures
            final(self)@ == old(self)@.push(command@),
    {
        self.commands.push(command);
        assert(self@ =~= old(self)@.push(command@));
    }

    pub fn draw_text(&mut self, label: &Vec<char>, x: Length, y: Length, font: &Font, color: RGBA)
        ensures
            final(self)@ == old(self)@.push(
                DrawCommandView::Text { label: label@, x, y, gc: spec_text_context(*font, color) },
            ),
    {
        let mut gc = font.0.gc.0.copy();
        gc.set_color(color);
        self.record(
            DrawCommand::Text { label: crate::utils::copy_chars(label), x, y, gc: GContext::wrap(gc) },
        );
    }

    pub fn draw_rect(&mut self, x: Length, y: Length, width: Length, height: Length, fill: RGBA)
        ensures
            final(self)@ == old(self)@.push(
                DrawCommandView::Rect { x, y, width, height, gc: spec_fill_context(fill) },
            ),
    {
        let mut gc = GContextImpl::new();
        gc.set_color(RGBA(0, 0, 0, 0));
        gc.set_fill(fill);
        self.record(DrawCommand::Rect { x, y, width, height, gc: GContext::wrap(gc) });
    }

    pub fn draw_line(
        &mut self,
        points: Vec<Vec2<Length>>,
        color: RGBA,
        width: Length,
        style: LineStyle,
    )
        ensures
            final(self)@ == old(self)@.push(
                DrawCommandView::Line { points: points@, color, width, style },
            ),
    {
        self.record(DrawCommand::Line { points, color, width, style });
    }

    pub fn record_bbox(&mut self, rect: &Rect<Length>)
        ensures
            final(self)@ == old(self)@.push(DrawCommandView::BoundingBox { rect: *rect }),
    {
        self.record(DrawCommand::BoundingBox { rect: *rect });
    }
}

} // verus!
