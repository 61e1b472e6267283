//! The primitives of a scene: exact coordinates, points, lines, rectangles
//! and colors.

use vstd::prelude::*;

verus! {

/// A pixel coordinate, held exactly as the fraction `num / den`.
///
/// The origin is the top left corner of the canvas; `x` grows to the
/// right and `y` grows downwards. A renderer divides when it draws.
#[derive(Clone, Copy, Debug, PartialEq, Eq, Structural)]
pub struct Coord {
    pub num: i128,
    pub den: i128,
}

impl Coord {
    /// The coordinate is a number: its denominator is positive.
    pub open spec fn wf(self) -> bool {
        self.den > 0
    }

    /// The coordinate of a whole number of pixels.
    pub open spec fn whole(pixels: int) -> Coord {
        Coord { num: pixels as i128, den: 1 }
    }

    /// The coordinate of a whole number of pixels.
    pub fn from_pixels(pixels: i128) -> (c: Coord)
        ensures
            c == Coord::whole(pixels as int),
            c.num == pixels,
            c.den == 1,
            c.wf(),
    {
        Coord { num: pixels, den: 1 }
    }
}

/// A point of the canvas.
#[derive(Clone, Copy, Debug, PartialEq, Eq, Structural)]
pub struct Point {
    pub x: Coord,
    pub y: Coord,
}

impl Point {
    pub open spec fn wf(self) -> bool {
        self.x.wf() && self.y.wf()
    }
}

/// A line segment between two points.
#[derive(Clone, Copy, Debug, PartialEq, Eq, Structural)]
pub struct Line {
    pub start: Point,
    pub end: Point,
}

impl Line {
    pub open spec fn wf(self) -> bool {
        self.start.wf() && self.end.wf()
    }
}

/// A rectangle given by its top left corner and its size.
#[derive(Clone, Copy, Debug, PartialEq, Eq, Structural)]
pub struct Rect {
    pub origin: Point,
    pub width: Coord,
    pub height: Coord,
}

impl Rect {
    pub open spec fn wf(self) -> bool {
        self.origin.wf() && self.width.wf() && self.height.wf()
    }
}

/// An opaque color by its red, green and blue parts.
#[derive(Clone, Copy, Debug, PartialEq, Eq, Structural)]
pub struct Color {
    pub red: u8,
    pub green: u8,
    pub blue: u8,
}

} // verus!
