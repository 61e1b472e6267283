//! The input data of the layout engine: bars, charts and canvas sizes.

use vstd::prelude::*;

verus! {

/// Number of price units in one whole unit of price: prices carry four
/// decimal places.
pub const PRICE_UNIT: i64 = 10_000;

/// A calendar day.
#[derive(Clone, Copy, Debug, PartialEq, Eq, Structural)]
pub struct Date {
    pub year: i32,
    pub month: u32,
    pub day: u32,
}

/// One trading period: its day and its open, high, low and close prices,
/// each in price units.
///
/// A bar is taken as it is: nothing here asks that `low` is the least and
/// `high` the greatest of the four prices.
#[derive(Clone, Copy, Debug, PartialEq, Eq, Structural)]
pub struct Bar {
    pub date: Date,
    pub open: i64,
    pub high: i64,
    pub low: i64,
    pub close: i64,
}

/// The data of one chart: its bars, newest first.
#[derive(Clone, Debug)]
pub struct Chart {
    pub bars: Vec<Bar>,
}

impl Chart {
    /// A chart without bars.
    pub fn new() -> (chart: Self)
        ensures
            chart.bars@ == Seq::<Bar>::empty(),
    {
        Chart { bars: Vec::new() }
    }
}

/// Width and height of a canvas, in pixels.
#[derive(Clone, Copy, Debug, PartialEq, Eq, Structural)]
pub struct Size {
    pub width: i32,
    pub height: i32,
}

impl Size {
    /// A canvas on which nothing can be drawn: its width or its height is
    /// zero or negative.
    pub open spec fn is_degenerate(self) -> bool {
        self.width <= 0 || self.height <= 0
    }

    /// Tells whether nothing can be drawn on this canvas.
    pub fn degenerate(&self) -> (b: bool)
        ensures
            b == self.is_degenerate(),
    {
        self.width <= 0 || self.height <= 0
    }
}

} // verus!
