//! The ticks of the price axis: the choice of the distance between two
//! ticks, and the ticks themselves with their labels.

use vstd::prelude::*;
use vstd::arithmetic::div_mod::lemma_fundamental_div_mod;
use crate::config::{ChartConfig, FONT_SIZE, TICK_LABEL_OFFSET, TICK_LENGTH};
use crate::geometry::{Coord, Line, Point};
use crate::range::PriceRange;
use crate::scale::{
    axis_x, lemma_product_bound, lemma_scaled_exact, move_by, moved, price_to_pixel, y_pixel,
};
use crate::text::{format_price, price_text};
use crate::types::Size;

verus! {

/// A text and the point at which its top left corner is drawn.
#[derive(Clone, Debug, PartialEq, Eq)]
pub struct AxisLabel {
    /// The text of the label.
    pub label: String,
    /// Where to draw the label.
    pub position: Point,
}

impl AxisLabel {
    /// Every coordinate of the label is a number.
    pub open spec fn wf(self) -> bool {
        self.position.wf()
    }
}

/// A tick of the price axis: its mark and its label.
#[derive(Clone, Debug, PartialEq, Eq)]
pub struct AxisTick {
    /// The mark, a short line that starts on the axis.
    pub tick_line: Line,
    /// The price of the tick, written out.
    pub label: AxisLabel,
}

impl AxisTick {
    /// Every coordinate of the tick is a number.
    pub open spec fn wf(self) -> bool {
        self.tick_line.wf() && self.label.wf()
    }
}

/// How far a candidate distance between ticks misses the target.
///
/// With `increment` price units between two ticks, a range of `extent`
/// price units holds `extent / increment` ticks, while a canvas `height`
/// pixels high asks for `height / y_tick_spacing` of them. The difference
/// of the two is `tick_gap / (increment * y_tick_spacing)`, in absolute
/// value; this is its numerator.
pub open spec fn tick_gap(extent: int, height: int, increment: int, config: ChartConfig) -> int {
    let d = extent * config.y_tick_spacing - height * increment;
    if d < 0 {
        -d
    } else {
        d
    }
}

/// The candidate `a` misses the target number of ticks by strictly less
/// than the candidate `b` does: the two differences are compared as
/// fractions, by cross-multiplication.
pub open spec fn closer(extent: int, height: int, a: int, b: int, config: ChartConfig) -> bool {
    tick_gap(extent, height, a, config) * b < tick_gap(extent, height, b, config) * a
}

/// The index, among the first `upto` candidates, of the one that comes
/// closest to the target number of ticks; of several that come equally
/// close, the first.
pub open spec fn closest_index(
    increments: Seq<i32>,
    upto: nat,
    extent: int,
    height: int,
    config: ChartConfig,
) -> int
    decreases upto,
{
    if upto <= 1 {
        0
    } else {
        let best = closest_index(increments, (upto - 1) as nat, extent, height, config);
        if closer(extent, height, increments[upto - 1] as int, increments[best] as int, config) {
            upto - 1
        } else {
            best
        }
    }
}

/// Tells whether candidate `i` is the first best of all: it misses the
/// target number of ticks by strictly less than every candidate before
/// it, and no candidate misses by less than it does.
pub open spec fn is_first_closest(
    increments: Seq<i32>,
    i: int,
    extent: int,
    height: int,
    config: ChartConfig,
) -> bool {
    &&& 0 <= i < increments.len()
    &&& forall|j: int|
        0 <= j < i ==> closer(
            extent,
            height,
            increments[i] as int,
            #[trigger] increments[j] as int,
            config,
        )
    &&& forall|j: int|
        0 <= j < increments.len() ==> !closer(
            extent,
            height,
            #[trigger] increments[j] as int,
            increments[i] as int,
            config,
        )
}

/// The distance between two ticks, in price units, for a range of
/// `extent` price units on a canvas `height` pixels high: the candidate
/// of the configuration that comes closest to one tick per
/// `y_tick_spacing` pixels.
pub open spec fn tick_increment(extent: int, height: int, config: ChartConfig) -> int {
    config.tick_increments@[closest_index(
        config.tick_increments@,
        config.tick_increments@.len(),
        extent,
        height,
        config,
    )] as int
}

/// Comparing how far candidates miss the target is transitive: if `a`
/// misses by less than `b`, and `c` by no less than `b`, then `a` misses
/// by less than `c`.
proof fn lemma_closer_transitive(ga: int, a: int, gb: int, b: int, gc: int, c: int)
    by (nonlinear_arith)
    requires
        a > 0,
        b > 0,
        c > 0,
        ga >= 0,
        gb >= 0,
        gc >= 0,
        ga * b < gb * a,
        gb * c <= gc * b,
    ensures
        ga * c < gc * a,
{
    assert((ga * b) * c < (gb * a) * c);
    assert((gb * c) * a <= (gc * b) * a);
    assert((ga * c) * b < (gc * a) * b);
}

/// The chosen candidate is the first best one: it misses the target by
/// strictly less than every candidate before it, and no candidate among
/// the first `upto` misses by less than it does.
pub proof fn lemma_closest_index(
    increments: Seq<i32>,
    upto: nat,
    extent: int,
    height: int,
    config: ChartConfig,
)
    requires
        1 <= upto <= increments.len(),
        forall|i: int| 0 <= i < increments.len() ==> #[trigger] increments[i] >= 1,
    ensures
        0 <= closest_index(increments, upto, extent, height, config) < upto,
        forall|j: int|
            0 <= j < closest_index(increments, upto, extent, height, config) ==> closer(
                extent,
                height,
                increments[closest_index(increments, upto, extent, height, config)] as int,
                #[trigger] increments[j] as int,
                config,
            ),
        forall|j: int|
            0 <= j < upto ==> !closer(
                extent,
                height,
                #[trigger] increments[j] as int,
                increments[closest_index(increments, upto, extent, height, config)] as int,
                config,
            ),
        upto == increments.len() ==> is_first_closest(
            increments,
            closest_index(increments, upto, extent, height, config),
            extent,
            height,
            config,
        ),
    decreases upto,
{
    if upto > 1 {
        let before = (upto - 1) as nat;
        lemma_closest_index(increments, before, extent, height, config);
        let best = closest_index(increments, before, extent, height, config);
        let last = upto - 1;
        let g_best = tick_gap(extent, height, increments[best] as int, config);
        let g_last = tick_gap(extent, height, increments[last] as int, config);
        if closer(extent, height, increments[last] as int, increments[best] as int, config) {
            assert forall|j: int| 0 <= j < last implies closer(
                extent,
                height,
                increments[last] as int,
                #[trigger] increments[j] as int,
                config,
            ) by {
                let g_j = tick_gap(extent, height, increments[j] as int, config);
                lemma_closer_transitive(
                    g_last,
                    increments[last] as int,
                    g_best,
                    increments[best] as int,
                    g_j,
                    increments[j] as int,
                );
            }
        }
    }
}

/// The remainder of `a` divided by a positive `b` that has the sign of
/// `a`: what is left of `a` after the multiples of `b` towards zero.
pub open spec fn signed_rem(a: int, b: int) -> int {
    if a >= 0 {
        a % b
    } else {
        -((-a) % b)
    }
}

/// How far below the highest price tick `k` lies, in price units. The
/// first tick lies `signed_rem(highest, increment)` below it, on the
/// multiple of the increment that is nearest to the highest price on its
/// side towards zero; each further tick lies one increment lower.
pub open spec fn tick_offset(range: PriceRange, increment: int, k: int) -> int {
    signed_rem(range.highest as int, increment) + k * increment
}

/// The price of tick `k`, in price units.
pub open spec fn tick_price(range: PriceRange, increment: int, k: int) -> int {
    range.highest - tick_offset(range, increment, k)
}

/// The number of ticks: tick `k` is drawn as long as its price is above
/// the lowest price of the range.
pub open spec fn tick_count(range: PriceRange, increment: int) -> nat {
    let room = range.extent() - signed_rem(range.highest as int, increment);
    if room <= 0 {
        0
    } else {
        ((room + increment - 1) / increment) as nat
    }
}

/// Tick `k` is among the ticks exactly if its price is above the lowest
/// price of the range.
pub proof fn lemma_tick_count(range: PriceRange, increment: int, k: int)
    requires
        increment > 0,
        k >= 0,
    ensures
        k < tick_count(range, increment) <==> tick_price(range, increment, k) > range.lowest,
{
    let room = range.extent() - signed_rem(range.highest as int, increment);
    if room <= 0 {
        assert(k * increment >= 0) by (nonlinear_arith)
            requires
                k >= 0,
                increment > 0,
        ;
    } else {
        let q = (room + increment - 1) / increment;
        lemma_fundamental_div_mod(room + increment - 1, increment);
        assert(increment * q == q * increment) by (nonlinear_arith);
        if k < q {
            assert(k * increment <= (q - 1) * increment) by (nonlinear_arith)
                requires
                    k <= q - 1,
                    increment > 0,
            ;
            assert((q - 1) * increment == q * increment - increment) by (nonlinear_arith);
        } else {
            assert(k * increment >= q * increment) by (nonlinear_arith)
                requires
                    k >= q,
                    increment > 0,
            ;
        }
    }
}

/// The tick prices run strictly downwards, one increment at a time, and
/// every one of them lies above the lowest price of the range. None but
/// the first can lie above the highest price, and the first does so only
/// where the highest price is negative, and then by less than one
/// increment.
pub proof fn lemma_tick_prices(range: PriceRange, increment: int, k: int)
    requires
        increment > 0,
        0 <= k < tick_count(range, increment),
    ensures
        tick_price(range, increment, k + 1) < tick_price(range, increment, k),
        tick_price(range, increment, k + 1) == tick_price(range, increment, k) - increment,
        range.lowest < tick_price(range, increment, k),
        k >= 1 || range.highest >= 0 ==> tick_price(range, increment, k) <= range.highest,
        tick_price(range, increment, k) < range.highest + increment,
{
    lemma_tick_count(range, increment, k);
    assert((k + 1) * increment == k * increment + increment) by (nonlinear_arith);
    assert(k * increment >= 0) by (nonlinear_arith)
        requires
            k >= 0,
            increment > 0,
    ;
    if k >= 1 {
        assert(k * increment >= increment) by (nonlinear_arith)
            requires
                k >= 1,
                increment > 0,
        ;
    }
}

/// Tells whether `tick` is tick `k` of the price axis: its mark runs
/// from the axis to the right on the pixel row of its price, and its
/// label holds the price in decimal, right of the mark and half a font
/// height above that row.
pub open spec fn is_tick(
    tick: AxisTick,
    k: int,
    range: PriceRange,
    increment: int,
    size: Size,
    config: ChartConfig,
) -> bool {
    let price = tick_price(range, increment, k);
    let y = y_pixel(price, range, size, config);
    let axis = axis_x(size, config);
    &&& tick.tick_line == Line {
        start: Point { x: Coord::whole(axis), y },
        end: Point { x: Coord::whole(axis + TICK_LENGTH), y },
    }
    &&& tick.label.position == Point {
        x: Coord::whole(axis + TICK_LABEL_OFFSET),
        y: moved(y, -(FONT_SIZE / 2)),
    }
    &&& tick.label.label@ == price_text(price)
}

/// Tells whether `ticks` are the ticks of the price axis for the given
/// range on the given canvas: none on a canvas without width or height,
/// else `tick_count` of them at the chosen increment, from the top down.
pub open spec fn are_ticks(
    ticks: Seq<AxisTick>,
    range: PriceRange,
    size: Size,
    config: ChartConfig,
) -> bool {
    let increment = tick_increment(range.extent(), size.height as int, config);
    if size.is_degenerate() {
        ticks.len() == 0
    } else {
        &&& ticks.len() == tick_count(range, increment)
        &&& forall|k: int|
            0 <= k < ticks.len() ==> is_tick(#[trigger] ticks[k], k, range, increment, size, config)
    }
}

/// Chooses the distance between two ticks of the price axis, in price
/// units.
///
/// Each candidate of the configuration is tried in turn; the one that
/// brings the number of ticks closest to one per `y_tick_spacing` pixels
/// of canvas height wins, and of several that come equally close, the
/// first.
pub fn choose_tick_increment(
    range: &PriceRange,
    height: i32,
    config: &ChartConfig,
) -> (increment: i32)
    requires
        config.wf(),
    ensures
        increment == tick_increment(range.extent(), height as int, *config),
        increment >= 1,
        exists|i: int|
            increment == #[trigger] config.tick_increments@[i] && is_first_closest(
                config.tick_increments@,
                i,
                range.extent(),
                height as int,
                *config,
            ),
{
    let extent: i128 = range.range();
    proof {
        lemma_product_bound(
            extent as int,
            config.y_tick_spacing as int,
            0x1_0000_0000_0000_0000,
            0x8000_0000,
        );
    }
    let target: i128 = extent * (config.y_tick_spacing as i128);
    let mut best: usize = 0;
    let mut i: usize = 1;
    while i < config.tick_increments.len()
        invariant
            config.wf(),
            1 <= i <= config.tick_increments@.len(),
            0 <= best < i,
            extent == range.extent(),
            target == extent * config.y_tick_spacing,
            -0x8000_0000_0000_0000_0000_0000 <= target <= 0x8000_0000_0000_0000_0000_0000,
            best == closest_index(
                config.tick_increments@,
                i as nat,
                extent as int,
                height as int,
                *config,
            ),
        decreases config.tick_increments@.len() - i,
    {
        let candidate: i128 = config.tick_increments[i] as i128;
        let held: i128 = config.tick_increments[best] as i128;
        proof {
            lemma_product_bound(height as int, candidate as int, 0x8000_0000, 0x8000_0000);
            lemma_product_bound(height as int, held as int, 0x8000_0000, 0x8000_0000);
        }
        let d_candidate: i128 = target - (height as i128) * candidate;
        let d_held: i128 = target - (height as i128) * held;
        let gap_candidate: i128 = if d_candidate < 0 {
            -d_candidate
        } else {
            d_candidate
        };
        let gap_held: i128 = if d_held < 0 {
            -d_held
        } else {
            d_held
        };
        proof {
            lemma_product_bound(
                gap_candidate as int,
                held as int,
                0x8000_0000_4000_0000_0000_0000,
                0x8000_0000,
            );
            lemma_product_bound(
                gap_held as int,
                candidate as int,
                0x8000_0000_4000_0000_0000_0000,
                0x8000_0000,
            );
        }
        if gap_candidate * held < gap_held * candidate {
            best = i;
        }
        i += 1;
    }
    proof {
        lemma_closest_index(
            config.tick_increments@,
            config.tick_increments@.len(),
            extent as int,
            height as int,
            *config,
        );
    }
    config.tick_increments[best]
}

/// Lays out the ticks of the price axis for a price range, from the top
/// of the canvas down.
///
/// The first tick lies on the nearest multiple of the chosen increment
/// at or, for a negative highest price, above the highest price; each
/// further tick lies one increment lower, as long as its price is above
/// the lowest price of the range. A canvas without width or height has
/// no ticks.
pub fn y_axis_ticks(
    range: &PriceRange,
    size: &Size,
    config: &ChartConfig,
) -> (ticks: Vec<AxisTick>)
    requires
        config.wf(),
    ensures
        are_ticks(ticks@, *range, *size, *config),
        forall|k: int| 0 <= k < ticks@.len() ==> (#[trigger] ticks@[k]).wf(),
{
    let mut ticks: Vec<AxisTick> = Vec::new();
    if size.degenerate() {
        return ticks;
    }
    let increment: i128 = choose_tick_increment(range, size.height, config) as i128;
    let highest: i128 = range.highest as i128;
    let lowest: i128 = range.lowest as i128;
    let axis: i128 = size.width as i128 - config.y_axis_labels_padding as i128;
    let mut offset: i128 = highest % increment;
    while highest - offset > lowest
        invariant
            config.wf(),
            !size.is_degenerate(),
            increment == tick_increment(range.extent(), size.height as int, *config),
            1 <= increment <= 0x7fff_ffff,
            highest == range.highest,
            lowest == range.lowest,
            axis == axis_x(*size, *config),
            offset == tick_offset(*range, increment as int, ticks@.len() as int),
            -0x8000_0000 <= offset <= 0x1_0000_0000_8000_0000,
            ticks@.len() <= tick_count(*range, increment as int),
            forall|k: int|
                0 <= k < ticks@.len() ==> is_tick(
                    #[trigger] ticks@[k],
                    k,
                    *range,
                    increment as int,
                    *size,
                    *config,
                ),
            forall|k: int| 0 <= k < ticks@.len() ==> (#[trigger] ticks@[k]).wf(),
        decreases highest - offset - lowest + increment,
    {
        let ghost k = ticks@.len() as int;
        proof {
            lemma_tick_count(*range, increment as int, k);
            lemma_tick_prices(*range, increment as int, k);
            assert((k + 1) * increment == k * increment + increment) by (nonlinear_arith);
        }
        let price: i64 = (highest - offset) as i64;
        let y = price_to_pixel(price, range, size, config);
        proof {
            lemma_scaled_exact(range.highest - price, *range, *size, *config);
        }
        let tick = AxisTick {
            tick_line: Line {
                start: Point { x: Coord::from_pixels(axis), y },
                end: Point { x: Coord::from_pixels(axis + TICK_LENGTH as i128), y },
            },
            label: AxisLabel {
                label: format_price(price),
                position: Point {
                    x: Coord::from_pixels(axis + TICK_LABEL_OFFSET as i128),
                    y: move_by(y, -(FONT_SIZE / 2)),
                },
            },
        };
        ticks.push(tick);
        offset = offset + increment;
    }
    proof {
        lemma_tick_count(*range, increment as int, ticks@.len() as int);
    }
    ticks
}

} // verus!
