//! The candles of a chart, one per visible bar, and the date labels
//! under them.

use vstd::prelude::*;
use crate::config::{ChartConfig, DATE_LABEL_OFFSET};
use crate::geometry::{Color, Coord, Line, Point, Rect};
use crate::range::PriceRange;
use crate::scale::{
    baseline_y, lemma_product_bound, lemma_scaled_exact, price_to_pixel, scale_drop, scaled,
    y_pixel,
};
use crate::text::{decimal_digits, format_number};
use crate::ticks::AxisLabel;
use crate::types::{Bar, Size};

verus! {

/// The glyph of one bar: a thin wick over its high-low range and a
/// filled body over its open-close range.
#[derive(Clone, Copy, Debug, PartialEq, Eq, Structural)]
pub struct Candle {
    /// The vertical line from the high to the low.
    pub wick: Line,
    /// The rectangle from the higher to the lower of open and close.
    pub body: Rect,
    /// The fill of the body.
    pub color: Color,
}

impl Candle {
    /// Every coordinate of the candle is a number.
    pub open spec fn wf(self) -> bool {
        self.wick.wf() && self.body.wf()
    }
}

/// The `x` of the bar that is drawn at place `index`, counted from the
/// left: two gaps of margin, then one footprint per bar.
pub open spec fn bar_x(index: int, config: ChartConfig) -> int {
    2 * config.bar_spacing + index * config.footprint()
}

/// The `x` of the left edge of a body `width` pixels wide that lies
/// centered on `x`: half the width to the left, which is a whole number
/// of pixels for an even width and a number of half pixels for an odd
/// one.
pub open spec fn body_left(x: int, width: int) -> Coord {
    if width % 2 == 0 {
        Coord::whole(x - width / 2)
    } else {
        Coord { num: (2 * x - width) as i128, den: 2 }
    }
}

/// The higher of the open and the close of a bar.
pub open spec fn body_top(bar: Bar) -> int {
    if bar.close > bar.open {
        bar.close as int
    } else {
        bar.open as int
    }
}

/// The lower of the open and the close of a bar.
pub open spec fn body_bottom(bar: Bar) -> int {
    if bar.close > bar.open {
        bar.open as int
    } else {
        bar.close as int
    }
}

/// The fill of the candle of a bar: bullish if the close is at or above
/// the open, bearish if it is below.
pub open spec fn candle_color(bar: Bar, config: ChartConfig) -> Color {
    if bar.close >= bar.open {
        config.bullish_color
    } else {
        config.bearish_color
    }
}

/// The candle of the bar that is drawn at place `index`.
///
/// The wick runs at the `x` of the bar from the pixel row of the high to
/// that of the low. The body is as wide as a bar and lies centered on
/// that `x`; its top is the pixel row of the higher of open and close,
/// and its height is the scaled difference between the two.
pub open spec fn candle_of(
    bar: Bar,
    index: int,
    range: PriceRange,
    size: Size,
    config: ChartConfig,
) -> Candle {
    let x = bar_x(index, config);
    Candle {
        wick: Line {
            start: Point { x: Coord::whole(x), y: y_pixel(bar.high as int, range, size, config) },
            end: Point { x: Coord::whole(x), y: y_pixel(bar.low as int, range, size, config) },
        },
        body: Rect {
            origin: Point {
                x: body_left(x, config.bar_width as int),
                y: y_pixel(body_top(bar), range, size, config),
            },
            width: Coord::whole(config.bar_width as int),
            height: scaled(body_top(bar) - body_bottom(bar), range, size, config),
        },
        color: candle_color(bar, config),
    }
}

/// Tells whether `candles` are the candles of the bars `visible`, which
/// run oldest first, for the given price range on the given canvas: none
/// on a canvas without width or height, else one per bar, from the left.
pub open spec fn are_candles(
    candles: Seq<Candle>,
    visible: Seq<Bar>,
    range: PriceRange,
    size: Size,
    config: ChartConfig,
) -> bool {
    if size.is_degenerate() {
        candles.len() == 0
    } else {
        &&& candles.len() == visible.len()
        &&& forall|i: int|
            0 <= i < candles.len() ==> #[trigger] candles[i] == candle_of(
                visible[i],
                i,
                range,
                size,
                config,
            )
    }
}

/// The date label of the bar that is drawn at place `index` holds the
/// day of the month of the bar, at the `x` of the bar and just under the
/// baseline.
pub open spec fn is_date_label(
    label: AxisLabel,
    bar: Bar,
    index: int,
    size: Size,
    config: ChartConfig,
) -> bool {
    &&& label.label@ == decimal_digits(bar.date.day as nat)
    &&& label.position == Point {
        x: Coord::whole(bar_x(index, config)),
        y: Coord::whole(baseline_y(size, config) + DATE_LABEL_OFFSET),
    }
}

/// Tells whether `labels` are the date labels of the bars `visible`:
/// none on a canvas without width or height, else one per bar, from the
/// left.
pub open spec fn are_date_labels(
    labels: Seq<AxisLabel>,
    visible: Seq<Bar>,
    size: Size,
    config: ChartConfig,
) -> bool {
    if size.is_degenerate() {
        labels.len() == 0
    } else {
        &&& labels.len() == visible.len()
        &&& forall|i: int|
            0 <= i < labels.len() ==> is_date_label(
                #[trigger] labels[i],
                visible[i],
                i,
                size,
                config,
            )
    }
}

/// The body of a candle lies centered on the `x` of its bar: from its
/// left edge, half its width leads to that `x`.
pub proof fn lemma_body_centered(
    bar: Bar,
    index: int,
    range: PriceRange,
    size: Size,
    config: ChartConfig,
)
    requires
        config.wf(),
        0 <= index <= usize::MAX,
    ensures
        candle_of(bar, index, range, size, config).body.origin.x == body_left(
            bar_x(index, config),
            config.bar_width as int,
        ),
        2 * body_left(bar_x(index, config), config.bar_width as int).num + config.bar_width
            * body_left(bar_x(index, config), config.bar_width as int).den == 2 * bar_x(
            index,
            config,
        ) * body_left(bar_x(index, config), config.bar_width as int).den,
        body_left(bar_x(index, config), config.bar_width as int).wf(),
        candle_of(bar, index, range, size, config).body.width == Coord::whole(
            config.bar_width as int,
        ),
        candle_of(bar, index, range, size, config).wick.start.x == Coord::whole(
            bar_x(index, config),
        ),
        candle_of(bar, index, range, size, config).wick.end.x == Coord::whole(
            bar_x(index, config),
        ),
{
    lemma_product_bound(index, config.footprint(), 0x1_0000_0000_0000_0000, 0x1_0000_0000);
}

/// Every coordinate of a candle is a number, whatever the bar holds.
pub proof fn lemma_candle_wf(
    bar: Bar,
    index: int,
    range: PriceRange,
    size: Size,
    config: ChartConfig,
)
    requires
        config.wf(),
    ensures
        candle_of(bar, index, range, size, config).wf(),
{
    lemma_scaled_exact(range.highest - bar.high, range, size, config);
    lemma_scaled_exact(range.highest - bar.low, range, size, config);
    lemma_scaled_exact(range.highest - body_top(bar), range, size, config);
    lemma_scaled_exact(body_top(bar) - body_bottom(bar), range, size, config);
}

/// Lays out the candles of the visible bars.
///
/// `visible` runs oldest first; its first bar is drawn leftmost. Prices
/// are mapped to pixel rows by the scale of `range`. A bar whose close is
/// at or above its open gets the bullish color, any other the bearish
/// one. A canvas without width or height has no candles.
pub fn candles(
    visible: &Vec<Bar>,
    range: &PriceRange,
    size: &Size,
    config: &ChartConfig,
) -> (candles: Vec<Candle>)
    requires
        config.wf(),
    ensures
        are_candles(candles@, visible@, *range, *size, *config),
        forall|i: int| 0 <= i < candles@.len() ==> (#[trigger] candles@[i]).wf(),
        forall|i: int|
            0 <= i < candles@.len() && visible@[i].close >= visible@[i].open ==> (
            #[trigger] candles@[i]).color == config.bullish_color,
        forall|i: int|
            0 <= i < candles@.len() && visible@[i].close < visible@[i].open ==> (
            #[trigger] candles@[i]).color == config.bearish_color,
{
    let mut candles: Vec<Candle> = Vec::new();
    if size.degenerate() {
        return candles;
    }
    let footprint: i128 = config.bar_width as i128 + config.bar_spacing as i128;
    let width: i128 = config.bar_width as i128;
    let mut x: i128 = 2 * (config.bar_spacing as i128);
    let mut i: usize = 0;
    while i < visible.len()
        invariant
            config.wf(),
            !size.is_degenerate(),
            i <= visible@.len(),
            footprint == config.footprint(),
            width == config.bar_width,
            x == bar_x(i as int, *config),
            candles@.len() == i,
            forall|j: int|
                0 <= j < i ==> #[trigger] candles@[j] == candle_of(
                    visible@[j],
                    j,
                    *range,
                    *size,
                    *config,
                ),
            forall|j: int| 0 <= j < i ==> (#[trigger] candles@[j]).wf(),
        decreases visible@.len() - i,
    {
        let bar = visible[i];
        let top: i64 = if bar.close > bar.open {
            bar.close
        } else {
            bar.open
        };
        let bottom: i64 = if bar.close > bar.open {
            bar.open
        } else {
            bar.close
        };
        let color = if bar.close >= bar.open {
            config.bullish_color
        } else {
            config.bearish_color
        };
        proof {
            lemma_product_bound(
                i as int,
                footprint as int,
                0x1_0000_0000_0000_0000,
                0x1_0000_0000,
            );
        }
        let left = if width % 2 == 0 {
            Coord::from_pixels(x - width / 2)
        } else {
            Coord { num: 2 * x - width, den: 2 }
        };
        let candle = Candle {
            wick: Line {
                start: Point {
                    x: Coord::from_pixels(x),
                    y: price_to_pixel(bar.high, range, size, config),
                },
                end: Point {
                    x: Coord::from_pixels(x),
                    y: price_to_pixel(bar.low, range, size, config),
                },
            },
            body: Rect {
                origin: Point { x: left, y: price_to_pixel(top, range, size, config) },
                width: Coord::from_pixels(config.bar_width as i128),
                height: scale_drop(top as i128 - bottom as i128, range, size, config),
            },
            color,
        };
        proof {
            lemma_candle_wf(bar, i as int, *range, *size, *config);
            lemma_product_bound(
                i as int + 1,
                footprint as int,
                0x1_0000_0000_0000_0000,
                0x1_0000_0000,
            );
            assert((i + 1) * footprint == i * footprint + footprint) by (nonlinear_arith);
        }
        candles.push(candle);
        x = x + footprint;
        i += 1;
    }
    candles
}

/// Lays out the date labels of the visible bars: the day of the month of
/// each bar, under its candle.
///
/// `visible` runs oldest first. A canvas without width or height has no
/// labels.
pub fn date_labels(
    visible: &Vec<Bar>,
    size: &Size,
    config: &ChartConfig,
) -> (labels: Vec<AxisLabel>)
    requires
        config.wf(),
    ensures
        are_date_labels(labels@, visible@, *size, *config),
        forall|i: int| 0 <= i < labels@.len() ==> (#[trigger] labels@[i]).wf(),
{
    let mut labels: Vec<AxisLabel> = Vec::new();
    if size.degenerate() {
        return labels;
    }
    let footprint: i128 = config.bar_width as i128 + config.bar_spacing as i128;
    let y: i128 = size.height as i128 - config.x_axis_labels_padding as i128
        + DATE_LABEL_OFFSET as i128;
    let mut x: i128 = 2 * (config.bar_spacing as i128);
    let mut i: usize = 0;
    while i < visible.len()
        invariant
            config.wf(),
            !size.is_degenerate(),
            i <= visible@.len(),
            footprint == config.footprint(),
            y == baseline_y(*size, *config) + DATE_LABEL_OFFSET,
            x == bar_x(i as int, *config),
            labels@.len() == i,
            forall|j: int|
                0 <= j < i ==> is_date_label(#[trigger] labels@[j], visible@[j], j, *size, *config),
            forall|j: int| 0 <= j < i ==> (#[trigger] labels@[j]).wf(),
        decreases visible@.len() - i,
    {
        let label = AxisLabel {
            label: format_number(visible[i].date.day as u64),
            position: Point { x: Coord::from_pixels(x), y: Coord::from_pixels(y) },
        };
        proof {
            lemma_product_bound(
                i as int + 1,
                footprint as int,
                0x1_0000_0000_0000_0000,
                0x1_0000_0000,
            );
            assert((i + 1) * footprint == i * footprint + footprint) by (nonlinear_arith);
        }
        labels.push(label);
        x = x + footprint;
        i += 1;
    }
    labels
}

} // verus!
