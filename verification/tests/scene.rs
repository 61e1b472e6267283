use candle_chart::scene::{x_axis, y_axis};
use candle_chart::{
    layout, Bar, ChartConfig, Color, Coord, Date, LayoutError, Line, Point, Rect, Size,
};

fn bar(day: u32, open: i64, high: i64, low: i64, close: i64) -> Bar {
    Bar { date: Date { year: 2021, month: 3, day }, open, high, low, close }
}

fn whole(pixels: i128) -> Coord {
    Coord { num: pixels, den: 1 }
}

fn five_bars() -> Vec<Bar> {
    vec![
        bar(5, 1_000_000, 1_003_000, 995_000, 1_002_000),
        bar(4, 1_010_000, 1_015_000, 1_000_500, 1_001_000),
        bar(3, 1_020_000, 1_027_000, 1_009_000, 1_010_500),
        bar(2, 1_015_000, 1_019_000, 900_000, 1_018_000),
        bar(1, 1_030_000, 1_041_000, 1_012_000, 1_016_000),
    ]
}

#[test]
fn empty_bar_sequence_fails_with_no_data() {
    let bars: Vec<Bar> = Vec::new();
    let config = ChartConfig::new();
    let result = layout(&bars, &Size { width: 200, height: 200 }, &config);
    assert_eq!(result, Err(LayoutError::NoData));
    assert_eq!(LayoutError::NoData.message(), "no data");
    let result = layout(&bars, &Size { width: 0, height: 0 }, &config);
    assert_eq!(result, Err(LayoutError::NoData));
}

#[test]
fn one_bar_on_200_by_200_gives_one_bullish_candle() {
    let bars = vec![bar(1, 1_001_000, 1_003_000, 990_000, 1_005_000)];
    let config = ChartConfig::new();
    let scene = layout(&bars, &Size { width: 200, height: 200 }, &config).unwrap();

    assert_eq!(scene.candles.len(), 1);
    let candle = scene.candles[0];
    assert_eq!(candle.color, Color { red: 0x38, green: 0xc1, blue: 0x72 });
    assert_eq!(candle.wick.start, Point { x: whole(10), y: Coord { num: 0, den: 13_000 } });
    assert_eq!(candle.wick.end, Point { x: whole(10), y: Coord { num: 13_000 * 180, den: 13_000 } });
    assert_eq!(
        candle.body,
        Rect {
            origin: Point { x: whole(5), y: Coord { num: -2_000 * 180, den: 13_000 } },
            width: whole(10),
            height: Coord { num: 4_000 * 180, den: 13_000 },
        }
    );

    assert_eq!(
        scene.axes,
        vec![
            Line {
                start: Point { x: whole(5), y: whole(180) },
                end: Point { x: whole(160), y: whole(180) },
            },
            Line {
                start: Point { x: whole(160), y: whole(5) },
                end: Point { x: whole(160), y: whole(195) },
            },
        ]
    );

    assert_eq!(scene.ticks.len(), 2);
    assert_eq!(scene.ticks[0].label.label, "100");
    assert_eq!(scene.ticks[0].tick_line.start.y, Coord { num: 3_000 * 180, den: 13_000 });
    assert_eq!(scene.ticks[1].label.label, "99.5");
    assert_eq!(scene.ticks[1].tick_line.start.y, Coord { num: 8_000 * 180, den: 13_000 });
    assert_eq!(scene.date_labels.len(), 0);
}

#[test]
fn room_for_three_of_five_bars() {
    let bars = five_bars();
    let config = ChartConfig::new();
    // 105 pixels of canvas leave 55 pixels of room: three bars of 15 pixels.
    let scene = layout(&bars, &Size { width: 105, height: 200 }, &config).unwrap();
    assert_eq!(scene.candles.len(), 3);
    // Oldest first: the bars of day 3, 4 and 5, with highs 102.7, 101.5, 100.3.
    // The range spans 99.5 to 102.7 and leaves out the low of 90 and the high of 104.1.
    let den = 1_027_000 - 995_000;
    assert_eq!(scene.candles[0].wick.start.y, Coord { num: 0, den });
    assert_eq!(scene.candles[1].wick.start.y, Coord { num: 12_000 * 180, den });
    assert_eq!(scene.candles[2].wick.start.y, Coord { num: 24_000 * 180, den });
    assert_eq!(scene.candles[2].wick.end.y, Coord { num: 32_000 * 180, den });
    assert_eq!(scene.candles[0].wick.start.x, whole(10));
    assert_eq!(scene.candles[1].wick.start.x, whole(25));
    assert_eq!(scene.candles[2].wick.start.x, whole(40));
    // range 3.2 on 200 pixels: steps of 1
    let labels: Vec<&str> = scene.ticks.iter().map(|t| t.label.label.as_str()).collect();
    assert_eq!(labels, vec!["102", "101", "100"]);
}

#[test]
fn canvas_of_55_pixels_without_gutter_fits_three_bars() {
    let bars = five_bars();
    let mut config = ChartConfig::new();
    config.y_axis_labels_padding = 0;
    let scene = layout(&bars, &Size { width: 55, height: 200 }, &config).unwrap();
    assert_eq!(scene.candles.len(), 3);
    let den = 1_027_000 - 995_000;
    assert_eq!(scene.candles[0].wick.start.y, Coord { num: 0, den });
    assert_eq!(scene.candles[2].wick.start.y, Coord { num: 24_000 * 180, den });
}

#[test]
fn canvas_of_55_pixels_is_too_narrow_for_a_bar() {
    let bars = five_bars();
    let config = ChartConfig::new();
    let scene = layout(&bars, &Size { width: 55, height: 200 }, &config).unwrap();
    assert_eq!(scene.candles.len(), 0);
    assert_eq!(scene.ticks.len(), 0);
    assert_eq!(scene.date_labels.len(), 0);
    assert_eq!(scene.axes.len(), 2);
    assert_eq!(
        scene.axes[0],
        Line { start: Point { x: whole(5), y: whole(180) }, end: Point { x: whole(15), y: whole(180) } }
    );
}

#[test]
fn canvas_without_width_or_height_gives_the_empty_scene() {
    let bars = five_bars();
    let config = ChartConfig::new();
    for size in [
        Size { width: 0, height: 0 },
        Size { width: 0, height: 300 },
        Size { width: 300, height: 0 },
        Size { width: -200, height: 300 },
        Size { width: 300, height: -200 },
        Size { width: i32::MIN, height: i32::MIN },
    ] {
        let scene = layout(&bars, &size, &config).unwrap();
        assert_eq!(scene.axes.len(), 0);
        assert_eq!(scene.ticks.len(), 0);
        assert_eq!(scene.candles.len(), 0);
        assert_eq!(scene.date_labels.len(), 0);
    }
}

#[test]
fn date_labels_are_there_when_the_configuration_asks_for_them() {
    let bars = five_bars();
    let mut config = ChartConfig::new();
    let size = Size { width: 105, height: 200 };
    assert_eq!(layout(&bars, &size, &config).unwrap().date_labels.len(), 0);
    config.date_labels = true;
    let scene = layout(&bars, &size, &config).unwrap();
    let days: Vec<&str> = scene.date_labels.iter().map(|l| l.label.as_str()).collect();
    assert_eq!(days, vec!["3", "4", "5"]);
    assert_eq!(scene.date_labels[0].position, Point { x: whole(10), y: whole(185) });
    assert_eq!(scene.date_labels[2].position, Point { x: whole(40), y: whole(185) });
}

#[test]
fn configuration_that_cannot_be_laid_out_with_is_refused() {
    let bars = five_bars();
    let none: Vec<Bar> = Vec::new();
    let size = Size { width: 200, height: 200 };

    let mut config = ChartConfig::new();
    config.bar_width = 0;
    assert!(!config.is_valid());
    assert_eq!(layout(&bars, &size, &config), Err(LayoutError::InvalidConfig));
    assert_eq!(layout(&none, &size, &config), Err(LayoutError::InvalidConfig));
    assert_eq!(LayoutError::InvalidConfig.message(), "invalid configuration");

    let mut config = ChartConfig::new();
    config.tick_increments = Vec::new();
    assert_eq!(layout(&bars, &size, &config), Err(LayoutError::InvalidConfig));

    let mut config = ChartConfig::new();
    config.tick_increments = vec![1_000, 0, 5_000];
    assert_eq!(layout(&bars, &size, &config), Err(LayoutError::InvalidConfig));

    let mut config = ChartConfig::new();
    config.y_tick_spacing = 0;
    assert_eq!(layout(&bars, &size, &config), Err(LayoutError::InvalidConfig));

    let mut config = ChartConfig::new();
    config.min_price_range = 0;
    assert_eq!(layout(&bars, &size, &config), Err(LayoutError::InvalidConfig));

    let mut config = ChartConfig::new();
    config.bar_spacing = -1;
    assert_eq!(layout(&bars, &size, &config), Err(LayoutError::InvalidConfig));

    let mut config = ChartConfig::new();
    config.x_axis_labels_padding = -1;
    assert_eq!(layout(&bars, &size, &config), Err(LayoutError::InvalidConfig));

    let mut config = ChartConfig::new();
    config.y_axis_labels_padding = -1;
    assert_eq!(layout(&bars, &size, &config), Err(LayoutError::InvalidConfig));
}

#[test]
fn default_configuration_holds_the_documented_constants() {
    let config = ChartConfig::new();
    assert!(config.is_valid());
    assert_eq!(config.bar_width, 10);
    assert_eq!(config.bar_spacing, 5);
    assert_eq!(config.x_axis_labels_padding, 20);
    assert_eq!(config.y_axis_labels_padding, 40);
    assert_eq!(config.y_tick_spacing, 50);
    assert_eq!(config.tick_increments, vec![1_000, 5_000, 10_000, 100_000, 1_000_000]);
    assert_eq!(config.min_price_range, 1);
    assert!(!config.date_labels);
    assert_eq!(config.text_color, Color { red: 0xef, green: 0xf8, blue: 0xff });
    assert_eq!(config.bullish_color, Color { red: 0x38, green: 0xc1, blue: 0x72 });
    assert_eq!(config.bearish_color, Color { red: 0xdc, green: 0x30, blue: 0x30 });
    assert_eq!(candle_chart::PRICE_UNIT, 10_000);
    assert_eq!(ChartConfig::default(), config);
}

#[test]
fn axes_frame_the_plot() {
    let config = ChartConfig::new();
    let size = Size { width: 640, height: 480 };
    assert_eq!(
        x_axis(&size, &config),
        Line {
            start: Point { x: whole(5), y: whole(460) },
            end: Point { x: whole(600), y: whole(460) },
        }
    );
    assert_eq!(
        y_axis(&size, &config),
        Line {
            start: Point { x: whole(600), y: whole(5) },
            end: Point { x: whole(600), y: whole(475) },
        }
    );
}

#[test]
fn layout_is_a_function_of_its_inputs() {
    let bars = five_bars();
    let config = ChartConfig::new();
    let size = Size { width: 333, height: 222 };
    let first = layout(&bars, &size, &config);
    let second = layout(&bars, &size, &config);
    assert_eq!(first, second);
    assert_eq!(bars, five_bars());
}

#[test]
fn every_coordinate_of_a_scene_is_a_number() {
    let config = ChartConfig::new();
    let bars = vec![
        bar(1, i64::MIN, i64::MIN + 2_000_000, i64::MIN, i64::MAX),
        bar(2, 0, i64::MAX, i64::MAX - 2_000_000, -1),
        bar(3, 7, 7, 7, 7),
    ];
    let lowest = layout(&bars[..1].to_vec(), &Size { width: 640, height: 480 }, &config).unwrap();
    assert_eq!(lowest.candles.len(), 1);
    assert_eq!(lowest.candles[0].wick.end.y, Coord { num: 2_000_000 * 460, den: 2_000_000 });
    assert!(lowest.candles[0].body.origin.y.den > 0);
    for height in [1, 19, 20, 21, 480] {
        let scene = layout(&bars[1..2].to_vec(), &Size { width: 640, height }, &config).unwrap();
        let mut coords: Vec<Coord> = Vec::new();
        for line in scene.axes.iter() {
            coords.extend([line.start.x, line.start.y, line.end.x, line.end.y]);
        }
        for tick in scene.ticks.iter() {
            let line = tick.tick_line;
            coords.extend([line.start.x, line.start.y, line.end.x, line.end.y]);
            coords.extend([tick.label.position.x, tick.label.position.y]);
        }
        for candle in scene.candles.iter() {
            coords.extend([candle.wick.start.x, candle.wick.start.y]);
            coords.extend([candle.wick.end.x, candle.wick.end.y]);
            coords.extend([candle.body.origin.x, candle.body.origin.y]);
            coords.extend([candle.body.width, candle.body.height]);
        }
        assert!(coords.len() >= 8 + 8 + 6);
        for c in coords {
            assert!(c.den > 0);
            assert!((c.num as f64 / c.den as f64).is_finite());
        }
    }
    let flat = layout(&bars[2..].to_vec(), &Size { width: 640, height: 480 }, &config).unwrap();
    assert_eq!(flat.candles.len(), 1);
    assert_eq!(flat.candles[0].wick.end.y, Coord { num: 0, den: 1 });
}
