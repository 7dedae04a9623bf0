//! Paint, fill and stroke styles, and text to be drawn.
use vstd::prelude::*;

use crate::geometry::Point;

verus! {

/// An RGBA color with one byte per channel.
#[derive(Clone, Copy, Debug, PartialEq, Eq, Structural)]
pub struct Color {
    pub r: u8,
    pub g: u8,
    pub b: u8,
    pub a: u8,
}

/// One stop of a gradient: a position along it, in 1/65535ths, and a color.
#[derive(Clone, Copy, Debug, PartialEq, Eq, Structural)]
pub struct ColorStop {
    pub offset: u16,
    pub color: Color,
}

/// What a mesh is painted with. The frame carries it through unchanged.
#[derive(Clone, Debug, PartialEq, Eq)]
pub enum Paint {
    Solid(Color),
    LinearGradient { start: Point, end: Point, stops: Vec<ColorStop> },
}

/// Which parts of a self-intersecting outline count as inside.
#[derive(Clone, Copy, Debug, PartialEq, Eq, Structural)]
pub enum FillRule {
    NonZero,
    EvenOdd,
}

/// How to fill a path.
#[derive(Clone, Debug, PartialEq, Eq)]
pub struct Fill {
    pub style: Paint,
    pub rule: FillRule,
}

#[derive(Clone, Copy, Debug, PartialEq, Eq, Structural)]
pub enum LineCap {
    Butt,
    Square,
    Round,
}

#[derive(Clone, Copy, Debug, PartialEq, Eq, Structural)]
pub enum LineJoin {
    Miter,
    Round,
    Bevel,
}

/// Alternating lengths of drawn and skipped parts of a stroke, starting
/// `offset` into the pattern. An empty pattern draws a solid line.
#[derive(Clone, Debug, PartialEq, Eq)]
pub struct LineDash {
    pub segments: Vec<u32>,
    pub offset: u32,
}

/// How to stroke a path.
#[derive(Clone, Debug, PartialEq, Eq)]
pub struct Stroke {
    pub style: Paint,
    pub width: u32,
    pub line_cap: LineCap,
    pub line_join: LineJoin,
    pub line_dash: LineDash,
}

/// The parameters handed to a stroke tessellator.
#[derive(Clone, Copy, Debug, PartialEq, Eq, Structural)]
pub struct StrokeOptions {
    pub line_width: u32,
    pub start_cap: LineCap,
    pub end_cap: LineCap,
    pub line_join: LineJoin,
}

/// The options that tessellate the outline of a stroke: both ends get its cap.
pub open spec fn stroke_options_of(s: Stroke) -> StrokeOptions {
    StrokeOptions {
        line_width: s.width,
        start_cap: s.line_cap,
        end_cap: s.line_cap,
        line_join: s.line_join,
    }
}

impl Stroke {
    pub fn options(&self) -> (r: StrokeOptions)
        ensures
            r == stroke_options_of(*self),
    {
        StrokeOptions {
            line_width: self.width,
            start_cap: self.line_cap,
            end_cap: self.line_cap,
            line_join: self.line_join,
        }
    }
}

#[derive(Clone, Debug, PartialEq, Eq)]
pub enum Font {
    Default,
    Named(String),
}

#[derive(Clone, Copy, Debug, PartialEq, Eq, Structural)]
pub enum HorizontalAlignment {
    Left,
    Center,
    Right,
}

#[derive(Clone, Copy, Debug, PartialEq, Eq, Structural)]
pub enum VerticalAlignment {
    Top,
    Center,
    Bottom,
}

/// A run of text anchored at `position`.
#[derive(Clone, Debug, PartialEq, Eq)]
pub struct Text {
    pub content: String,
    pub position: Point,
    pub color: Color,
    pub size: u32,
    pub font: Font,
    pub horizontal_alignment: HorizontalAlignment,
    pub vertical_alignment: VerticalAlignment,
}

} // verus!
