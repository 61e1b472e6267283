//! The vertical scale of a chart: the transform from prices to pixels.

use vstd::prelude::*;
use crate::config::ChartConfig;
use crate::geometry::Coord;
use crate::range::PriceRange;
use crate::types::Size;

verus! {

/// The `x` of the price axis: the canvas without the gutter of the price
/// labels.
pub open spec fn axis_x(size: Size, config: ChartConfig) -> int {
    size.width - config.y_axis_labels_padding
}

/// The `y` of the baseline: the canvas without the strip under it. It is
/// also the height, in pixels, onto which the price range is spread.
pub open spec fn baseline_y(size: Size, config: ChartConfig) -> int {
    size.height - config.x_axis_labels_padding
}

/// The price range that the scale divides by: the extent of the range,
/// or the least range of the configuration where the range is flat.
pub open spec fn effective_extent(range: PriceRange, config: ChartConfig) -> int {
    if range.extent() == 0 {
        config.min_price_range as int
    } else {
        range.extent()
    }
}

/// A difference of `drop` price units in pixels. The scale spreads the
/// effective extent of the range over the height down to the baseline,
/// so as a number this is `drop * baseline_y / effective_extent`; the
/// fraction is held with a positive denominator.
pub open spec fn scaled(drop: int, range: PriceRange, size: Size, config: ChartConfig) -> Coord {
    let extent = effective_extent(range, config);
    let rise = drop * baseline_y(size, config);
    if extent > 0 {
        Coord { num: rise as i128, den: extent as i128 }
    } else {
        Coord { num: (-rise) as i128, den: (-extent) as i128 }
    }
}

/// The pixel row of a price: as far below row 0 as the price lies below
/// the highest price of the range, scaled. Higher prices have smaller
/// rows.
pub open spec fn y_pixel(price: int, range: PriceRange, size: Size, config: ChartConfig) -> Coord {
    scaled(range.highest - price, range, size, config)
}

/// The coordinate `pixels` whole pixels further down (or, if negative,
/// further up).
pub open spec fn moved(c: Coord, pixels: int) -> Coord {
    Coord { num: (c.num + pixels * c.den) as i128, den: c.den }
}

/// Bounds the product of two bounded integers.
pub(crate) proof fn lemma_product_bound(a: int, b: int, bound_a: int, bound_b: int)
    by (nonlinear_arith)
    requires
        -bound_a <= a <= bound_a,
        -bound_b <= b <= bound_b,
    ensures
        -(bound_a * bound_b) <= a * b <= bound_a * bound_b,
{
}

/// The fraction that `scaled` holds is exact for every difference of two
/// prices: the denominator is positive, and numerator and denominator
/// are the products and differences themselves, up to the common sign
/// that makes the denominator positive.
pub proof fn lemma_scaled_exact(drop: int, range: PriceRange, size: Size, config: ChartConfig)
    requires
        config.wf(),
        -0x1_0000_0000_0000_0000 <= drop <= 0x1_0000_0000_0000_0000,
    ensures
        scaled(drop, range, size, config).wf(),
        effective_extent(range, config) != 0,
        effective_extent(range, config) > 0 ==> scaled(drop, range, size, config).num == drop
            * baseline_y(size, config),
        effective_extent(range, config) > 0 ==> scaled(drop, range, size, config).den
            == effective_extent(range, config),
        effective_extent(range, config) < 0 ==> scaled(drop, range, size, config).num == -(drop
            * baseline_y(size, config)),
        effective_extent(range, config) < 0 ==> scaled(drop, range, size, config).den
            == -effective_extent(range, config),
        -0x1_0000_0000_0000_0000_0000_0000 <= scaled(drop, range, size, config).num
            <= 0x1_0000_0000_0000_0000_0000_0000,
        scaled(drop, range, size, config).den < 0x1_0000_0000_0000_0000,
{
    lemma_product_bound(drop, baseline_y(size, config), 0x1_0000_0000_0000_0000, 0x1_0000_0000);
}

/// The scale is anchored at the ends of the range: the highest price
/// lies on row 0 and, where the range is not flat, the lowest price lies
/// on the baseline.
pub proof fn lemma_y_pixel_anchors(range: PriceRange, size: Size, config: ChartConfig)
    requires
        config.wf(),
    ensures
        y_pixel(range.highest as int, range, size, config).num == 0,
        range.extent() != 0 ==> y_pixel(range.lowest as int, range, size, config).num
            == baseline_y(size, config) * y_pixel(range.lowest as int, range, size, config).den,
{
    lemma_scaled_exact(0, range, size, config);
    lemma_scaled_exact(range.extent(), range, size, config);
    let extent = range.extent();
    let base = baseline_y(size, config);
    assert(extent * base == base * extent) by (nonlinear_arith);
    assert(-(extent * base) == base * (-extent)) by (nonlinear_arith);
}

/// The pixel rows are turned upside down: in a range that is not
/// inverted, on a canvas whose baseline is not above row 0, the higher of
/// two prices lies on the smaller row. Both rows are fractions of the
/// same denominator.
pub proof fn lemma_y_pixel_inverted(
    lower: i64,
    higher: i64,
    range: PriceRange,
    size: Size,
    config: ChartConfig,
)
    requires
        config.wf(),
        lower <= higher,
        range.extent() >= 0,
        baseline_y(size, config) >= 0,
    ensures
        y_pixel(higher as int, range, size, config).num <= y_pixel(
            lower as int,
            range,
            size,
            config,
        ).num,
        y_pixel(higher as int, range, size, config).den == y_pixel(
            lower as int,
            range,
            size,
            config,
        ).den,
{
    lemma_scaled_exact(range.highest - higher, range, size, config);
    lemma_scaled_exact(range.highest - lower, range, size, config);
    let base = baseline_y(size, config);
    assert((range.highest - higher) * base <= (range.highest - lower) * base)
        by (nonlinear_arith)
        requires
            range.highest - higher <= range.highest - lower,
            base >= 0,
    ;
}

/// Scales a difference of prices to pixels.
pub(crate) fn scale_drop(
    drop: i128,
    range: &PriceRange,
    size: &Size,
    config: &ChartConfig,
) -> (c: Coord)
    requires
        config.wf(),
        -0x1_0000_0000_0000_0000 <= drop <= 0x1_0000_0000_0000_0000,
    ensures
        c == scaled(drop as int, *range, *size, *config),
        c.wf(),
{
    let extent: i128 = if range.highest as i128 - range.lowest as i128 == 0 {
        config.min_price_range as i128
    } else {
        range.highest as i128 - range.lowest as i128
    };
    let span: i128 = size.height as i128 - config.x_axis_labels_padding as i128;
    proof {
        lemma_product_bound(drop as int, span as int, 0x1_0000_0000_0000_0000, 0x1_0000_0000);
    }
    let rise: i128 = drop * span;
    if extent > 0 {
        Coord { num: rise, den: extent }
    } else {
        Coord { num: -rise, den: -extent }
    }
}

/// Maps a price to its pixel row.
pub fn price_to_pixel(
    price: i64,
    range: &PriceRange,
    size: &Size,
    config: &ChartConfig,
) -> (y: Coord)
    requires
        config.wf(),
    ensures
        y == y_pixel(price as int, *range, *size, *config),
        y.wf(),
{
    scale_drop(range.highest as i128 - price as i128, range, size, config)
}

/// Moves a coordinate by a whole number of pixels.
pub(crate) fn move_by(c: Coord, pixels: i32) -> (moved_c: Coord)
    requires
        c.wf(),
        -0x1_0000_0000_0000_0000_0000_0000 <= c.num <= 0x1_0000_0000_0000_0000_0000_0000,
        c.den <= 0x1_0000_0000_0000_0000,
    ensures
        moved_c == moved(c, pixels as int),
        moved_c.num == c.num + pixels * c.den,
        moved_c.den == c.den,
        moved_c.wf(),
{
    proof {
        lemma_product_bound(pixels as int, c.den as int, 0x1_0000_0000, 0x1_0000_0000_0000_0000);
    }
    Coord { num: c.num + (pixels as i128) * c.den, den: c.den }
}

} // verus!
