//! The scene of a chart: everything that one layout pass hands to the
//! renderer.

use vstd::prelude::*;
use crate::candles::{are_candles, are_date_labels, candles, date_labels, Candle};
use crate::config::ChartConfig;
use crate::error::LayoutError;
use crate::geometry::{Coord, Line, Point};
use crate::range::{price_range, range_of};
use crate::scale::{axis_x, baseline_y};
use crate::selection::{visible_bars, visible_seq};
use crate::ticks::{are_ticks, y_axis_ticks, AxisLabel, AxisTick};
use crate::types::{Bar, Size};

verus! {

/// The primitives of a chart, in pixel coordinates relative to the top
/// left corner of the canvas.
#[derive(Clone, Debug, PartialEq, Eq)]
pub struct Scene {
    /// The baseline and the price axis, in this order; none on a canvas
    /// without width or height.
    pub axes: Vec<Line>,
    /// The ticks of the price axis, from the top down.
    pub ticks: Vec<AxisTick>,
    /// The candles, from the left: oldest bar first.
    pub candles: Vec<Candle>,
    /// The date labels under the candles, from the left; none unless the
    /// configuration asks for them.
    pub date_labels: Vec<AxisLabel>,
}

impl Scene {
    /// Every coordinate of the scene is a number: no fraction has a
    /// denominator that is zero or negative.
    pub open spec fn wf(self) -> bool {
        &&& forall|i: int| 0 <= i < self.axes@.len() ==> (#[trigger] self.axes@[i]).wf()
        &&& forall|i: int| 0 <= i < self.ticks@.len() ==> (#[trigger] self.ticks@[i]).wf()
        &&& forall|i: int| 0 <= i < self.candles@.len() ==> (#[trigger] self.candles@[i]).wf()
        &&& forall|i: int|
            0 <= i < self.date_labels@.len() ==> (#[trigger] self.date_labels@[i]).wf()
    }

    /// The scene holds nothing to draw.
    pub open spec fn is_empty(self) -> bool {
        &&& self.axes@.len() == 0
        &&& self.ticks@.len() == 0
        &&& self.candles@.len() == 0
        &&& self.date_labels@.len() == 0
    }
}

/// The baseline: the horizontal line above the strip of the date labels,
/// from one gap right of the left edge to the price axis.
pub open spec fn x_axis_line(size: Size, config: ChartConfig) -> Line {
    Line {
        start: Point {
            x: Coord::whole(config.bar_spacing as int),
            y: Coord::whole(baseline_y(size, config)),
        },
        end: Point {
            x: Coord::whole(axis_x(size, config)),
            y: Coord::whole(baseline_y(size, config)),
        },
    }
}

/// The price axis: the vertical line left of the gutter of the price
/// labels, from one gap under the top edge to one gap above the bottom
/// edge.
pub open spec fn y_axis_line(size: Size, config: ChartConfig) -> Line {
    Line {
        start: Point {
            x: Coord::whole(axis_x(size, config)),
            y: Coord::whole(config.bar_spacing as int),
        },
        end: Point {
            x: Coord::whole(axis_x(size, config)),
            y: Coord::whole(size.height - config.bar_spacing),
        },
    }
}

/// Tells whether `scene` is the scene of the chart with the bars `bars`,
/// which run newest first, on the given canvas.
///
/// The axes are drawn unless the canvas has no width or no height. Ticks
/// and candles belong to the visible bars and to their price range; where
/// no bar is visible there are none. Date labels are there only if the
/// configuration asks for them.
pub open spec fn is_scene(scene: Scene, bars: Seq<Bar>, size: Size, config: ChartConfig) -> bool {
    let visible = visible_seq(bars, size.width as int, config);
    let range = range_of(visible);
    &&& if size.is_degenerate() {
        scene.axes@.len() == 0
    } else {
        scene.axes@ == seq![x_axis_line(size, config), y_axis_line(size, config)]
    }
    &&& if visible.len() == 0 {
        &&& scene.ticks@.len() == 0
        &&& scene.candles@.len() == 0
        &&& scene.date_labels@.len() == 0
    } else {
        &&& are_ticks(scene.ticks@, range, size, config)
        &&& are_candles(scene.candles@, visible, range, size, config)
        &&& if config.date_labels {
            are_date_labels(scene.date_labels@, visible, size, config)
        } else {
            scene.date_labels@.len() == 0
        }
    }
}

/// The baseline of a chart.
pub fn x_axis(size: &Size, config: &ChartConfig) -> (line: Line)
    ensures
        line == x_axis_line(*size, *config),
        line.wf(),
{
    let baseline: i128 = size.height as i128 - config.x_axis_labels_padding as i128;
    Line {
        start: Point {
            x: Coord::from_pixels(config.bar_spacing as i128),
            y: Coord::from_pixels(baseline),
        },
        end: Point {
            x: Coord::from_pixels(size.width as i128 - config.y_axis_labels_padding as i128),
            y: Coord::from_pixels(baseline),
        },
    }
}

/// The price axis of a chart.
pub fn y_axis(size: &Size, config: &ChartConfig) -> (line: Line)
    ensures
        line == y_axis_line(*size, *config),
        line.wf(),
{
    let axis: i128 = size.width as i128 - config.y_axis_labels_padding as i128;
    Line {
        start: Point {
            x: Coord::from_pixels(axis),
            y: Coord::from_pixels(config.bar_spacing as i128),
        },
        end: Point {
            x: Coord::from_pixels(axis),
            y: Coord::from_pixels(size.height as i128 - config.bar_spacing as i128),
        },
    }
}

/// Lays out a chart: from the bars, newest first, and the size of the
/// canvas to the scene to draw.
///
/// Fails with [`LayoutError::InvalidConfig`] if the configuration cannot
/// be laid out with, else with [`LayoutError::NoData`] if there is no bar
/// at all, and in no other case. A canvas without width or height gives
/// the empty scene. A canvas too narrow for a single bar gives the axes
/// alone.
pub fn layout(
    bars: &Vec<Bar>,
    size: &Size,
    config: &ChartConfig,
) -> (result: Result<Scene, LayoutError>)
    ensures
        result is Ok <==> config.wf() && bars@.len() > 0,
        result matches Err(e) ==> (config.wf() ==> e == LayoutError::NoData),
        result matches Err(e) ==> (!config.wf() ==> e == LayoutError::InvalidConfig),
        result matches Ok(scene) ==> is_scene(scene, bars@, *size, *config) && scene.wf(),
        result matches Ok(scene) ==> (size.is_degenerate() ==> scene.is_empty()),
{
    if !config.is_valid() {
        return Err(LayoutError::InvalidConfig);
    }
    let visible = match visible_bars(bars, size.width, config) {
        Err(e) => {
            return Err(e);
        },
        Ok(visible) => visible,
    };
    let mut axes: Vec<Line> = Vec::new();
    if !size.degenerate() {
        axes.push(x_axis(size, config));
        axes.push(y_axis(size, config));
        assert(axes@ =~= seq![x_axis_line(*size, *config), y_axis_line(*size, *config)]);
    }
    match price_range(&visible) {
        Err(_) => Ok(
            Scene { axes, ticks: Vec::new(), candles: Vec::new(), date_labels: Vec::new() },
        ),
        Ok(range) => {
            let ticks = y_axis_ticks(&range, size, config);
            let candles = candles(&visible, &range, size, config);
            let date_labels = if config.date_labels {
                date_labels(&visible, size, config)
            } else {
                Vec::new()
            };
            Ok(Scene { axes, ticks, candles, date_labels })
        },
    }
}

} // verus!
