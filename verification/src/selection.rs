//! Bar selection: which bars of a chart fit into the width of the canvas.

use vstd::prelude::*;
use vstd::arithmetic::div_mod::{lemma_div_is_ordered, lemma_fundamental_div_mod};
use crate::config::ChartConfig;
use crate::error::LayoutError;
use crate::types::Bar;

verus! {

/// Width that is left for bars on a canvas `width` pixels wide: the
/// gutter of the price labels and a margin of two gaps are taken off.
pub open spec fn available_width(width: int, config: ChartConfig) -> int {
    width - config.y_axis_labels_padding - 2 * config.bar_spacing
}

/// How many of `total` bars are shown on a canvas `width` pixels wide:
/// as many as fit side by side into the available width, each with its
/// footprint, and none if there is no room at all.
pub open spec fn visible_count(total: nat, width: int, config: ChartConfig) -> nat {
    let room = available_width(width, config);
    let fit = room / config.footprint();
    if room < 0 {
        0
    } else if fit < total {
        fit as nat
    } else {
        total
    }
}

/// The first `count` bars of a sequence that runs newest first, turned
/// round so that the oldest of them comes first.
pub open spec fn oldest_first(bars: Seq<Bar>, count: nat) -> Seq<Bar> {
    Seq::new(count, |i: int| bars[count - 1 - i])
}

/// The bars that are shown on a canvas `width` pixels wide, oldest first.
pub open spec fn visible_seq(bars: Seq<Bar>, width: int, config: ChartConfig) -> Seq<Bar> {
    oldest_first(bars, visible_count(bars.len(), width, config))
}

/// Selects the bars to show on a canvas `width` pixels wide.
///
/// `bars` runs newest first. The result holds the most recent bars that
/// fit, in drawing order: the oldest of them first, the newest last. A
/// canvas too narrow for a single bar selects no bar.
///
/// Fails with [`LayoutError::NoData`] if there is no bar to select from,
/// and in no other case.
pub fn visible_bars(
    bars: &Vec<Bar>,
    width: i32,
    config: &ChartConfig,
) -> (result: Result<Vec<Bar>, LayoutError>)
    requires
        config.wf(),
    ensures
        result is Err <==> bars@.len() == 0,
        result matches Err(e) ==> e == LayoutError::NoData,
        result matches Ok(visible) ==> visible@ == visible_seq(bars@, width as int, *config),
        result matches Ok(visible) ==> visible@.len() == visible_count(
            bars@.len(),
            width as int,
            *config,
        ),
        result matches Ok(visible) ==> visible@.len() <= bars@.len(),
        result matches Ok(visible) ==> forall|i: int|
            0 <= i < visible@.len() ==> visible@[i] == #[trigger] bars@[visible@.len() - 1 - i],
{
    if bars.len() == 0 {
        return Err(LayoutError::NoData);
    }
    let room: i64 = width as i64 - config.y_axis_labels_padding as i64
        - 2 * (config.bar_spacing as i64);
    let footprint: i64 = config.bar_width as i64 + config.bar_spacing as i64;
    let mut count: usize = 0;
    if room >= 0 {
        let fit: i64 = room / footprint;
        proof {
            lemma_fundamental_div_mod(room as int, footprint as int);
            lemma_div_is_ordered(0, room as int, footprint as int);
        }
        if (fit as u64) < bars.len() as u64 {
            count = fit as usize;
        } else {
            count = bars.len();
        }
    }
    let mut visible: Vec<Bar> = Vec::new();
    let mut left: usize = count;
    while left > 0
        invariant
            left <= count <= bars@.len(),
            visible@.len() == count - left,
            forall|i: int| 0 <= i < visible@.len() ==> visible@[i] == bars@[count - 1 - i],
        decreases left,
    {
        left -= 1;
        visible.push(bars[left]);
    }
    Ok(visible)
}

/// No more bars are shown than fit into the available width: on a
/// canvas that leaves any room at all, the number of visible bars is at
/// most the available width divided by the footprint of a bar, rounded
/// down.
pub proof fn lemma_visible_count_bound(total: nat, width: int, config: ChartConfig)
    requires
        config.wf(),
        available_width(width, config) >= 0,
    ensures
        visible_count(total, width, config) <= available_width(width, config)
            / config.footprint(),
        visible_count(total, width, config) * config.footprint() <= available_width(
            width,
            config,
        ),
{
    let room = available_width(width, config);
    let fp = config.footprint();
    let count = visible_count(total, width, config);
    lemma_fundamental_div_mod(room, fp);
    lemma_div_is_ordered(0, room, fp);
    assert(count * fp <= (room / fp) * fp) by (nonlinear_arith)
        requires
            0 <= count <= room / fp,
            fp > 0,
    ;
}

/// With the default configuration, a canvas at least 50 pixels wide shows
/// at most `(width - 40 - 10) / 15` bars, rounded down.
pub proof fn lemma_visible_count_bound_default(total: nat, width: int, config: ChartConfig)
    requires
        config.is_default(),
        width >= 50,
    ensures
        visible_count(total, width, config) <= (width - 40 - 10) / 15,
{
    lemma_visible_count_bound(total, width, config);
}

/// No canvas shows more bars than the chart has, and a canvas that is
/// narrower than one bar with its gap, or that leaves less room than
/// that, shows none.
pub proof fn lemma_visible_count_limits(total: nat, width: int, config: ChartConfig)
    requires
        config.wf(),
    ensures
        visible_count(total, width, config) <= total,
        available_width(width, config) < config.footprint() ==> visible_count(
            total,
            width,
            config,
        ) == 0,
        width < config.footprint() ==> visible_count(total, width, config) == 0,
{
    let room = available_width(width, config);
    let fp = config.footprint();
    if 0 <= room < fp {
        assert(room / fp == 0) by (nonlinear_arith)
            requires
                0 <= room < fp,
        ;
    }
}

/// A wider canvas never shows fewer bars.
pub proof fn lemma_visible_count_monotonic(
    total: nat,
    narrow: int,
    wide: int,
    config: ChartConfig,
)
    requires
        config.wf(),
        narrow <= wide,
    ensures
        visible_count(total, narrow, config) <= visible_count(total, wide, config),
{
    let fp = config.footprint();
    let room_narrow = available_width(narrow, config);
    let room_wide = available_width(wide, config);
    if room_narrow >= 0 {
        lemma_div_is_ordered(room_narrow, room_wide, fp);
        lemma_div_is_ordered(0, room_narrow, fp);
    }
}

} // verus!
