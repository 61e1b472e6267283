//! The chart as a widget sees it: the bars of a chart and the size of
//! the canvas, with one method per stage of the layout.

use vstd::prelude::*;
use crate::candles::{are_candles, candles, Candle};
use crate::config::ChartConfig;
use crate::error::LayoutError;
use crate::geometry::Line;
use crate::range::{price_range, range_of, PriceRange};
use crate::scene::{is_scene, layout, x_axis, x_axis_line, y_axis, y_axis_line, Scene};
use crate::selection::{visible_bars, visible_seq};
use crate::ticks::{are_ticks, y_axis_ticks, AxisTick};
use crate::types::{Bar, Chart, Size};

verus! {

/// The bars of a chart, the size of the canvas they are drawn on, and
/// the configuration to draw them with.
pub struct ChartWidget {
    bars: Vec<Bar>,
    size: Size,
    config: ChartConfig,
}

impl ChartWidget {
    #[verifier::type_invariant]
    spec fn inv(self) -> bool {
        self.config.wf()
    }

    /// The bars of the chart, newest first.
    pub closed spec fn bars(self) -> Seq<Bar> {
        self.bars@
    }

    /// The size of the canvas.
    pub closed spec fn size(self) -> Size {
        self.size
    }

    /// The configuration that the chart is drawn with.
    pub closed spec fn config(self) -> ChartConfig {
        self.config
    }

    /// The bars that are shown, oldest first.
    pub open spec fn visible(self) -> Seq<Bar> {
        visible_seq(self.bars(), self.size().width as int, self.config())
    }

    /// A widget for the bars of `chart` on a canvas of the given size,
    /// with the default configuration.
    pub fn new(chart: &Chart, size: Size) -> (widget: Self)
        ensures
            widget.bars() == chart.bars@,
            widget.size() == size,
            widget.config().is_default(),
            widget.config().wf(),
    {
        ChartWidget { bars: chart.bars.clone(), size, config: ChartConfig::new() }
    }

    /// A widget for the bars of `chart` on a canvas of the given size,
    /// with a configuration of the caller.
    ///
    /// Fails with [`LayoutError::InvalidConfig`] if the configuration
    /// cannot be laid out with, and in no other case.
    pub fn with_config(
        chart: &Chart,
        size: Size,
        config: ChartConfig,
    ) -> (result: Result<Self, LayoutError>)
        ensures
            result is Ok <==> config.wf(),
            result matches Err(e) ==> e == LayoutError::InvalidConfig,
            result matches Ok(widget) ==> widget.bars() == chart.bars@,
            result matches Ok(widget) ==> widget.size() == size,
            result matches Ok(widget) ==> widget.config() == config,
    {
        if !config.is_valid() {
            return Err(LayoutError::InvalidConfig);
        }
        Ok(ChartWidget { bars: chart.bars.clone(), size, config })
    }

    /// A widget without bars on a canvas without size, with the default
    /// configuration.
    pub fn empty() -> (widget: Self)
        ensures
            widget.bars() == Seq::<Bar>::empty(),
            widget.size() == (Size { width: 0, height: 0 }),
            widget.config().is_default(),
            widget.config().wf(),
    {
        ChartWidget {
            bars: Vec::new(),
            size: Size { width: 0, height: 0 },
            config: ChartConfig::new(),
        }
    }

    /// The price range of the given bars: their lowest low and their
    /// highest high.
    ///
    /// Fails with [`LayoutError::NoData`] if `bars` is empty, and in no
    /// other case.
    pub fn price_range(&self, bars: Vec<Bar>) -> (result: Result<PriceRange, LayoutError>)
        ensures
            bars@.len() == 0 <==> result == Err::<PriceRange, LayoutError>(LayoutError::NoData),
            bars@.len() > 0 <==> result == Ok::<PriceRange, LayoutError>(range_of(bars@)),
            result matches Ok(range) ==> forall|i: int|
                0 <= i < bars@.len() ==> range.lowest <= (#[trigger] bars@[i]).low && bars@[i].high
                    <= range.highest,
    {
        price_range(&bars)
    }

    /// The bars that fit into the width of the canvas: the most recent
    /// ones, oldest first.
    ///
    /// Fails with [`LayoutError::NoData`] if the chart has no bars, and
    /// in no other case.
    pub fn visible_bars(&self) -> (result: Result<Vec<Bar>, LayoutError>)
        ensures
            result is Err <==> self.bars().len() == 0,
            result matches Err(e) ==> e == LayoutError::NoData,
            result matches Ok(visible) ==> visible@ == self.visible(),
            result matches Ok(visible) ==> visible@.len() <= self.bars().len(),
    {
        proof {
            use_type_invariant(self);
        }
        visible_bars(&self.bars, self.size.width, &self.config)
    }

    /// The baseline of the chart.
    pub fn x_axis(&self) -> (line: Line)
        ensures
            line == x_axis_line(self.size(), self.config()),
            line.wf(),
    {
        x_axis(&self.size, &self.config)
    }

    /// The price axis of the chart.
    pub fn y_axis(&self) -> (line: Line)
        ensures
            line == y_axis_line(self.size(), self.config()),
            line.wf(),
    {
        y_axis(&self.size, &self.config)
    }

    /// The ticks of the price axis, from the top down, for the price
    /// range of the visible bars.
    ///
    /// Fails with [`LayoutError::NoData`] if the chart has no bars, and
    /// in no other case. Where no bar is visible there are no ticks.
    pub fn y_axis_ticks(&self) -> (result: Result<Vec<AxisTick>, LayoutError>)
        ensures
            self.bars().len() == 0 <==> result is Err,
            result matches Err(e) ==> e == LayoutError::NoData,
            result matches Ok(ticks) ==> (self.visible().len() == 0 ==> ticks@.len() == 0),
            result matches Ok(ticks) ==> (self.visible().len() > 0 ==> are_ticks(
                ticks@,
                range_of(self.visible()),
                self.size(),
                self.config(),
            )),
            result matches Ok(ticks) ==> forall|k: int|
                0 <= k < ticks@.len() ==> (#[trigger] ticks@[k]).wf(),
    {
        proof {
            use_type_invariant(self);
        }
        let visible = match visible_bars(&self.bars, self.size.width, &self.config) {
            Err(e) => {
                return Err(e);
            },
            Ok(visible) => visible,
        };
        match price_range(&visible) {
            Err(_) => Ok(Vec::new()),
            Ok(range) => Ok(y_axis_ticks(&range, &self.size, &self.config)),
        }
    }

    /// The candles of the visible bars, from the left.
    ///
    /// Fails with [`LayoutError::NoData`] if the chart has no bars, and
    /// in no other case. Where no bar is visible there are no candles.
    pub fn candles(&self) -> (result: Result<Vec<Candle>, LayoutError>)
        ensures
            self.bars().len() == 0 <==> result is Err,
            result matches Err(e) ==> e == LayoutError::NoData,
            result matches Ok(candles) ==> are_candles(
                candles@,
                self.visible(),
                range_of(self.visible()),
                self.size(),
                self.config(),
            ),
            result matches Ok(candles) ==> forall|i: int|
                0 <= i < candles@.len() ==> (#[trigger] candles@[i]).wf(),
    {
        proof {
            use_type_invariant(self);
        }
        let visible = match visible_bars(&self.bars, self.size.width, &self.config) {
            Err(e) => {
                return Err(e);
            },
            Ok(visible) => visible,
        };
        match price_range(&visible) {
            Err(_) => Ok(Vec::new()),
            Ok(range) => Ok(candles(&visible, &range, &self.size, &self.config)),
        }
    }

    /// Everything there is to draw: axes, ticks, candles and, if the
    /// configuration asks for them, date labels.
    ///
    /// Fails with [`LayoutError::NoData`] if the chart has no bars, and
    /// in no other case.
    pub fn scene(&self) -> (result: Result<Scene, LayoutError>)
        ensures
            self.bars().len() == 0 <==> result is Err,
            result matches Err(e) ==> e == LayoutError::NoData,
            result matches Ok(scene) ==> is_scene(scene, self.bars(), self.size(), self.config())
                && scene.wf(),
    {
        proof {
            use_type_invariant(self);
        }
        layout(&self.bars, &self.size, &self.config)
    }
}

} // verus!
