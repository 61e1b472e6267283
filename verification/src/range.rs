//! The price range of a set of bars: its lowest low and its highest high.

use vstd::prelude::*;
use crate::error::LayoutError;
use crate::types::Bar;

verus! {

/// The lowest and the highest price of a set of bars, in price units.
#[derive(Clone, Copy, Debug, PartialEq, Eq, Structural)]
pub struct PriceRange {
    pub lowest: i64,
    pub highest: i64,
}

impl PriceRange {
    /// The distance from the lowest to the highest price.
    pub open spec fn extent(self) -> int {
        self.highest - self.lowest
    }

    /// The distance from the lowest to the highest price, in price units.
    pub fn range(&self) -> (r: i128)
        ensures
            r == self.extent(),
    {
        self.highest as i128 - self.lowest as i128
    }
}

/// The greatest `high` among the bars; 0 for no bars.
pub open spec fn highest_high(bars: Seq<Bar>) -> int
    decreases bars.len(),
{
    if bars.len() == 0 {
        0
    } else if bars.len() == 1 {
        bars[0].high as int
    } else {
        let before = highest_high(bars.drop_last());
        if bars.last().high > before {
            bars.last().high as int
        } else {
            before
        }
    }
}

/// The least `low` among the bars; 0 for no bars.
pub open spec fn lowest_low(bars: Seq<Bar>) -> int
    decreases bars.len(),
{
    if bars.len() == 0 {
        0
    } else if bars.len() == 1 {
        bars[0].low as int
    } else {
        let before = lowest_low(bars.drop_last());
        if bars.last().low < before {
            bars.last().low as int
        } else {
            before
        }
    }
}

/// The price range of a non-empty set of bars.
pub open spec fn range_of(bars: Seq<Bar>) -> PriceRange {
    PriceRange { lowest: lowest_low(bars) as i64, highest: highest_high(bars) as i64 }
}

/// The highest high of a non-empty set of bars is the `high` of one of
/// them, and no bar of the set has a greater one.
pub proof fn lemma_highest_high(bars: Seq<Bar>)
    requires
        bars.len() > 0,
    ensures
        forall|i: int| 0 <= i < bars.len() ==> (#[trigger] bars[i]).high <= highest_high(bars),
        exists|i: int| 0 <= i < bars.len() && (#[trigger] bars[i]).high == highest_high(bars),
    decreases bars.len(),
{
    if bars.len() == 1 {
        assert(bars[0].high == highest_high(bars));
    } else {
        let rest = bars.drop_last();
        lemma_highest_high(rest);
        let at = choose|i: int|
            0 <= i < rest.len() && (#[trigger] rest[i]).high == highest_high(rest);
        assert(bars[at] == rest[at]);
        assert forall|i: int| 0 <= i < bars.len() implies (#[trigger] bars[i]).high
            <= highest_high(bars) by {
            if i < bars.len() - 1 {
                assert(rest[i] == bars[i]);
            }
        }
    }
}

/// The lowest low of a non-empty set of bars is the `low` of one of them,
/// and no bar of the set has a lesser one.
pub proof fn lemma_lowest_low(bars: Seq<Bar>)
    requires
        bars.len() > 0,
    ensures
        forall|i: int| 0 <= i < bars.len() ==> (#[trigger] bars[i]).low >= lowest_low(bars),
        exists|i: int| 0 <= i < bars.len() && (#[trigger] bars[i]).low == lowest_low(bars),
    decreases bars.len(),
{
    if bars.len() == 1 {
        assert(bars[0].low == lowest_low(bars));
    } else {
        let rest = bars.drop_last();
        lemma_lowest_low(rest);
        let at = choose|i: int|
            0 <= i < rest.len() && (#[trigger] rest[i]).low == lowest_low(rest);
        assert(bars[at] == rest[at]);
        assert forall|i: int| 0 <= i < bars.len() implies (#[trigger] bars[i]).low >= lowest_low(
            bars,
        ) by {
            if i < bars.len() - 1 {
                assert(rest[i] == bars[i]);
            }
        }
    }
}

/// Every bar lies within the price range of its set: its high is at most
/// the highest price of the range, its low at least the lowest.
pub proof fn lemma_range_contains(bars: Seq<Bar>, i: int)
    requires
        0 <= i < bars.len(),
    ensures
        bars[i].high <= range_of(bars).highest,
        bars[i].low >= range_of(bars).lowest,
        range_of(bars).highest == highest_high(bars),
        range_of(bars).lowest == lowest_low(bars),
{
    lemma_highest_high(bars);
    lemma_lowest_low(bars);
}

/// Computes the price range of a set of bars.
///
/// Fails with [`LayoutError::NoData`] on the empty set, and on no other.
/// The range is measured over the given bars alone.
pub fn price_range(bars: &Vec<Bar>) -> (result: Result<PriceRange, LayoutError>)
    ensures
        bars@.len() == 0 <==> result == Err::<PriceRange, LayoutError>(LayoutError::NoData),
        bars@.len() > 0 <==> result == Ok::<PriceRange, LayoutError>(range_of(bars@)),
        result matches Ok(range) ==> range.highest == highest_high(bars@),
        result matches Ok(range) ==> range.lowest == lowest_low(bars@),
        result matches Ok(range) ==> forall|i: int|
            0 <= i < bars@.len() ==> range.lowest <= (#[trigger] bars@[i]).low && bars@[i].high
                <= range.highest,
        result matches Ok(range) ==> exists|i: int|
            0 <= i < bars@.len() && (#[trigger] bars@[i]).high == range.highest,
        result matches Ok(range) ==> exists|i: int|
            0 <= i < bars@.len() && (#[trigger] bars@[i]).low == range.lowest,
{
    if bars.len() == 0 {
        return Err(LayoutError::NoData);
    }
    let mut highest: i64 = bars[0].high;
    let mut lowest: i64 = bars[0].low;
    let mut i: usize = 1;
    while i < bars.len()
        invariant
            1 <= i <= bars@.len(),
            highest == highest_high(bars@.take(i as int)),
            lowest == lowest_low(bars@.take(i as int)),
        decreases bars@.len() - i,
    {
        assert(bars@.take(i + 1).drop_last() =~= bars@.take(i as int));
        let bar = bars[i];
        if bar.high > highest {
            highest = bar.high;
        }
        if bar.low < lowest {
            lowest = bar.low;
        }
        i += 1;
    }
    assert(bars@.take(i as int) =~= bars@);
    proof {
        lemma_highest_high(bars@);
        lemma_lowest_low(bars@);
    }
    Ok(PriceRange { lowest, highest })
}

} // verus!
