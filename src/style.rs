//! Resolves a path's fill and stroke into a color and a draw type.
use vstd::prelude::*;

verus! {

/// An sRGB color with straight alpha, one byte per channel.
#[derive(Clone, Copy, Debug, PartialEq, Eq, Structural)]
pub struct Color {
    pub red: u8,
    pub green: u8,
    pub blue: u8,
    pub alpha: u8,
}

/// The color used where a paint has no single color: opaque white.
pub open spec fn default_color_spec() -> Color {
    Color { red: 255, green: 255, blue: 255, alpha: 255 }
}

impl Color {
    /// Opaque white.
    pub fn white() -> (r: Color)
        ensures
            r == default_color_spec(),
    {
        Color { red: 255, green: 255, blue: 255, alpha: 255 }
    }
}

impl Default for Color {
    fn default() -> (r: Color)
        ensures
            r == default_color_spec(),
    {
        Color::white()
    }
}

/// An opaque color as a document gives it.
#[derive(Clone, Copy, Debug, PartialEq, Eq, Structural)]
pub struct Rgb {
    pub red: u8,
    pub green: u8,
    pub blue: u8,
}

/// What a fill or a stroke paints with.
#[derive(Clone, Copy, Debug, PartialEq, Eq, Structural)]
pub enum Paint {
    Color(Rgb),
    LinearGradient,
    RadialGradient,
    Pattern,
}

/// The end of an open stroke, as a document gives it.
#[derive(Clone, Copy, Debug, PartialEq, Eq, Structural)]
pub enum CapStyle {
    Butt,
    Square,
    Round,
}

/// The corner between two stroke segments, as a document gives it.
#[derive(Clone, Copy, Debug, PartialEq, Eq, Structural)]
pub enum JoinStyle {
    Miter,
    Bevel,
    Round,
    MiterClip,
}

/// A fill: a paint and its opacity (0 transparent, 255 opaque).
#[derive(Clone, Copy, Debug, PartialEq, Eq, Structural)]
pub struct Fill {
    pub paint: Paint,
    pub opacity: u8,
}

/// A stroke: a paint, its opacity, its width (fixed-point) and its cap and join.
#[derive(Clone, Copy, Debug, PartialEq, Eq, Structural)]
pub struct Stroke {
    pub paint: Paint,
    pub opacity: u8,
    pub width: i64,
    pub linecap: CapStyle,
    pub linejoin: JoinStyle,
}

/// The cap a tessellator draws at the end of an open stroke.
#[derive(Clone, Copy, Debug, PartialEq, Eq, Structural)]
pub enum LineCap {
    Butt,
    Square,
    Round,
}

/// The join a tessellator draws between stroke segments.
#[derive(Clone, Copy, Debug, PartialEq, Eq, Structural)]
pub enum LineJoin {
    Miter,
    MiterClip,
    Round,
    Bevel,
}

/// The options handed to a stroke tessellator; lengths are fixed-point.
#[derive(Clone, Copy, Debug, PartialEq, Eq, Structural)]
pub struct StrokeOptions {
    pub tolerance: i64,
    pub line_width: i64,
    pub line_cap: LineCap,
    pub line_join: LineJoin,
}

/// Whether a path is filled, or stroked with the given options.
#[derive(Clone, Copy, Debug, PartialEq, Eq, Structural)]
pub enum DrawType {
    Fill,
    Stroke(StrokeOptions),
}

/// The flattening tolerance of strokes: a hundredth of a unit (`FIXED_ONE / 100`, rounded down).
pub const STROKE_TOLERANCE: i64 = 655;

pub open spec fn paint_color_spec(paint: Paint, opacity: u8) -> Color {
    match paint {
        Paint::Color(c) => Color { red: c.red, green: c.green, blue: c.blue, alpha: opacity },
        _ => default_color_spec(),
    }
}

pub open spec fn cap_spec(c: CapStyle) -> LineCap {
    match c {
        CapStyle::Butt => LineCap::Butt,
        CapStyle::Square => LineCap::Square,
        CapStyle::Round => LineCap::Round,
    }
}

pub open spec fn join_spec(j: JoinStyle) -> LineJoin {
    match j {
        JoinStyle::Miter => LineJoin::Miter,
        JoinStyle::Bevel => LineJoin::Bevel,
        JoinStyle::Round => LineJoin::Round,
        JoinStyle::MiterClip => LineJoin::MiterClip,
    }
}

pub open spec fn stroke_options_spec(s: Stroke) -> StrokeOptions {
    StrokeOptions {
        tolerance: STROKE_TOLERANCE,
        line_width: s.width,
        line_cap: cap_spec(s.linecap),
        line_join: join_spec(s.linejoin),
    }
}

/// The color of a paint at an opacity: a flat color keeps its channels and
/// takes the opacity as alpha; any other paint falls back to opaque white.
pub fn paint_color(paint: &Paint, opacity: u8) -> (r: Color)
    ensures
        r == paint_color_spec(*paint, opacity),
{
    match paint {
        Paint::Color(c) => Color { red: c.red, green: c.green, blue: c.blue, alpha: opacity },
        _ => Color::white(),
    }
}

/// Maps a document's cap style to the tessellator's.
pub fn convert_cap(c: CapStyle) -> (r: LineCap)
    ensures
        r == cap_spec(c),
{
    match c {
        CapStyle::Butt => LineCap::Butt,
        CapStyle::Square => LineCap::Square,
        CapStyle::Round => LineCap::Round,
    }
}

/// Maps a document's join style to the tessellator's.
pub fn convert_join(j: JoinStyle) -> (r: LineJoin)
    ensures
        r == join_spec(j),
{
    match j {
        JoinStyle::Miter => LineJoin::Miter,
        JoinStyle::Bevel => LineJoin::Bevel,
        JoinStyle::Round => LineJoin::Round,
        JoinStyle::MiterClip => LineJoin::MiterClip,
    }
}

impl Fill {
    /// The color and draw type of this fill.
    pub fn resolve(&self) -> (r: (Color, DrawType))
        ensures
            r == (paint_color_spec(self.paint, self.opacity), DrawType::Fill),
    {
        (paint_color(&self.paint, self.opacity), DrawType::Fill)
    }
}

impl Stroke {
    /// The color and draw type of this stroke.
    pub fn resolve(&self) -> (r: (Color, DrawType))
        ensures
            r == (paint_color_spec(self.paint, self.opacity), DrawType::Stroke(
                stroke_options_spec(*self),
            )),
    {
        let color = paint_color(&self.paint, self.opacity);
        let options = StrokeOptions {
            tolerance: STROKE_TOLERANCE,
            line_width: self.width,
            line_cap: convert_cap(self.linecap),
            line_join: convert_join(self.linejoin),
        };
        (color, DrawType::Stroke(options))
    }
}

} // verus!
