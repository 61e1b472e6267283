//! The constants of a chart, gathered in one configuration value.

use vstd::prelude::*;
use crate::geometry::Color;

verus! {

/// Default width of a candle body, in pixels.
pub const BAR_WIDTH: i32 = 10;

/// Default gap between two candles, in pixels.
pub const BAR_SPACING: i32 = 5;

/// Default height of the strip under the baseline that holds the date
/// labels, in pixels.
pub const X_AXIS_LABELS_PADDING: i32 = 20;

/// Default width of the gutter right of the price axis that holds the
/// price labels, in pixels.
pub const Y_AXIS_LABELS_PADDING: i32 = 40;

/// Default target distance between two ticks of the price axis, in pixels.
pub const Y_TICK_SPACING: i32 = 50;

/// Default least price range, in price units: the range that stands in
/// for a flat one when the vertical scale is computed. It is the smallest
/// difference between two prices.
pub const MIN_PRICE_RANGE: i64 = 1;

/// Height of the label font, in pixels.
pub const FONT_SIZE: i32 = 14;

/// Length of a tick mark, in pixels.
pub const TICK_LENGTH: i32 = 5;

/// Distance from the price axis to the left edge of a price label, in
/// pixels.
pub const TICK_LABEL_OFFSET: i32 = 10;

/// Distance from the baseline down to the top of a date label, in pixels.
pub const DATE_LABEL_OFFSET: i32 = 5;

/// The constants of a chart.
#[derive(Clone, Debug, PartialEq, Eq)]
pub struct ChartConfig {
    /// Width of a candle body, in pixels.
    pub bar_width: i32,
    /// Gap between two candles, in pixels. Twice this gap is left free at
    /// the left edge of the canvas.
    pub bar_spacing: i32,
    /// Height of the strip under the baseline, in pixels.
    pub x_axis_labels_padding: i32,
    /// Width of the gutter right of the price axis, in pixels.
    pub y_axis_labels_padding: i32,
    /// Target distance between two ticks of the price axis, in pixels.
    pub y_tick_spacing: i32,
    /// The candidate distances between two ticks, in price units, in the
    /// order in which they are tried.
    pub tick_increments: Vec<i32>,
    /// The range, in price units, that stands in for a flat price range.
    pub min_price_range: i64,
    /// Whether a scene holds a day-of-month label under each candle.
    pub date_labels: bool,
    /// Color of axes, ticks, wicks and labels.
    pub text_color: Color,
    /// Fill of a candle whose close is not below its open.
    pub bullish_color: Color,
    /// Fill of a candle whose close is below its open.
    pub bearish_color: Color,
}

impl ChartConfig {
    /// The configuration can be laid out with: a bar takes room, no
    /// padding is negative, and every divisor is positive.
    pub open spec fn wf(self) -> bool {
        &&& self.bar_width >= 1
        &&& self.bar_spacing >= 0
        &&& self.x_axis_labels_padding >= 0
        &&& self.y_axis_labels_padding >= 0
        &&& self.y_tick_spacing >= 1
        &&& self.tick_increments@.len() >= 1
        &&& forall|i: int|
            0 <= i < self.tick_increments@.len() ==> #[trigger] self.tick_increments@[i] >= 1
        &&& self.min_price_range >= 1
    }

    /// The default configuration: bars of 10 pixels with 5 pixels
    /// between them, a strip of 20 pixels under the baseline, a gutter of
    /// 40 pixels right of the price axis, a tick every 50 pixels or so,
    /// tick distances of 0.1, 0.5, 1, 10 and 100, a least range of one
    /// price unit, no date labels, and the default colors.
    pub open spec fn is_default(self) -> bool {
        &&& self.bar_width == 10
        &&& self.bar_spacing == 5
        &&& self.x_axis_labels_padding == 20
        &&& self.y_axis_labels_padding == 40
        &&& self.y_tick_spacing == 50
        &&& self.tick_increments@ == seq![1_000i32, 5_000i32, 10_000i32, 100_000i32, 1_000_000i32]
        &&& self.min_price_range == 1
        &&& !self.date_labels
        &&& self.text_color == (Color { red: 0xef, green: 0xf8, blue: 0xff })
        &&& self.bullish_color == (Color { red: 0x38, green: 0xc1, blue: 0x72 })
        &&& self.bearish_color == (Color { red: 0xdc, green: 0x30, blue: 0x30 })
    }

    /// Room that one bar takes: its width and the gap after it.
    pub open spec fn footprint(self) -> int {
        self.bar_width + self.bar_spacing
    }

    /// The default configuration.
    pub fn new() -> (config: Self)
        ensures
            config.is_default(),
            config.wf(),
    {
        let mut increments: Vec<i32> = Vec::new();
        increments.push(1_000);
        increments.push(5_000);
        increments.push(10_000);
        increments.push(100_000);
        increments.push(1_000_000);
        assert(increments@ =~= seq![1_000i32, 5_000i32, 10_000i32, 100_000i32, 1_000_000i32]);
        ChartConfig {
            bar_width: BAR_WIDTH,
            bar_spacing: BAR_SPACING,
            x_axis_labels_padding: X_AXIS_LABELS_PADDING,
            y_axis_labels_padding: Y_AXIS_LABELS_PADDING,
            y_tick_spacing: Y_TICK_SPACING,
            tick_increments: increments,
            min_price_range: MIN_PRICE_RANGE,
            date_labels: false,
            text_color: Color { red: 0xef, green: 0xf8, blue: 0xff },
            bullish_color: Color { red: 0x38, green: 0xc1, blue: 0x72 },
            bearish_color: Color { red: 0xdc, green: 0x30, blue: 0x30 },
        }
    }

    /// Tells whether the configuration can be laid out with.
    pub fn is_valid(&self) -> (valid: bool)
        ensures
            valid == self.wf(),
    {
        if self.bar_width < 1 || self.bar_spacing < 0 || self.x_axis_labels_padding < 0
            || self.y_axis_labels_padding < 0 || self.y_tick_spacing < 1
            || self.tick_increments.len() < 1 || self.min_price_range < 1 {
            return false;
        }
        let mut i: usize = 0;
        while i < self.tick_increments.len()
            invariant
                i <= self.tick_increments@.len(),
                forall|j: int| 0 <= j < i ==> #[trigger] self.tick_increments@[j] >= 1,
            decreases self.tick_increments@.len() - i,
        {
            if self.tick_increments[i] < 1 {
                return false;
            }
            i += 1;
        }
        true
    }
}

impl Default for ChartConfig {
    /// The default configuration.
    fn default() -> (config: Self)
        ensures
            config.is_default(),
            config.wf(),
    {
        ChartConfig::new()
    }
}

} // verus!
