use candle_chart::ticks::{choose_tick_increment, y_axis_ticks};
use candle_chart::{layout, Bar, ChartConfig, Coord, Date, PriceRange, Size};

fn value(c: Coord) -> f64 {
    c.num as f64 / c.den as f64
}

fn price(units: i64) -> f64 {
    units as f64 / 10_000.0
}

struct Random(u64);

impl Random {
    fn next(&mut self, bound: u64) -> u64 {
        self.0 = self.0.wrapping_mul(6_364_136_223_846_793_005).wrapping_add(1_442_695_040_888_963_407);
        (self.0 >> 33) % bound
    }
}

#[test]
fn increment_agrees_with_floating_point() {
    let config = ChartConfig::new();
    let increments = [0.1, 0.5, 1.0, 10.0, 100.0];
    let mut random = Random(7);
    let mut compared = 0;
    for _ in 0..5_000 {
        let lowest = random.next(50_000_000) as i64;
        let extent = 1 + random.next(30_000_000) as i64;
        let height = 1 + random.next(2_000) as i32;
        let range = PriceRange { lowest, highest: lowest + extent };
        let wanted = height as f64 / 50.0;
        let mut best = 0;
        let mut clear = true;
        for (i, inc) in increments.iter().enumerate() {
            let miss = (price(extent) / inc - wanted).abs();
            let held = (price(extent) / increments[best] - wanted).abs();
            if i != best && (miss - held).abs() < 1e-6 {
                clear = false;
            }
            if miss < held {
                best = i;
            }
        }
        if clear {
            let chosen = choose_tick_increment(&range, height, &config);
            assert_eq!(price(chosen as i64), increments[best]);
            compared += 1;
        }
    }
    assert!(compared > 4_000);
}

#[test]
fn ticks_agree_with_floating_point_on_binary_fractions() {
    // Steps of 0.5, 1, 10 and 100 and prices in quarters are exact in
    // floating point, so the two computations must agree to the last tick.
    let mut config = ChartConfig::new();
    config.tick_increments = vec![5_000, 10_000, 100_000, 1_000_000];
    let increments = [0.5, 1.0, 10.0, 100.0];
    let mut random = Random(11);
    for _ in 0..500 {
        let lowest = 2_500 * random.next(40_000) as i64;
        let extent = 2_500 * (1 + random.next(2_000) as i64);
        let height = 21 + random.next(1_000) as i32;
        let range = PriceRange { lowest, highest: lowest + extent };
        let size = Size { width: 500, height };

        let wanted = height as f64 / 50.0;
        let mut step = increments[0];
        for inc in increments.iter() {
            if (price(extent) / inc - wanted).abs() < (price(extent) / step - wanted).abs() {
                step = *inc;
            }
        }
        let highest = price(range.highest);
        let scaling = (height as f64 - 20.0) / price(extent);
        let mut expected: Vec<(f64, String)> = Vec::new();
        let mut offset = highest % step;
        while highest - offset > price(lowest) {
            expected.push((offset * scaling, (highest - offset).to_string()));
            offset += step;
        }

        let ticks = y_axis_ticks(&range, &size, &config);
        assert_eq!(ticks.len(), expected.len());
        for (tick, (row, label)) in ticks.iter().zip(expected.iter()) {
            assert_eq!(&tick.label.label, label);
            assert!((value(tick.tick_line.start.y) - row).abs() < 1e-6);
            assert!((value(tick.label.position.y) - (row - 7.0)).abs() < 1e-6);
            assert_eq!(value(tick.tick_line.start.x), 460.0);
            assert_eq!(value(tick.tick_line.end.x), 465.0);
            assert_eq!(value(tick.label.position.x), 470.0);
        }
    }
}

#[test]
fn scene_agrees_with_floating_point() {
    let config = ChartConfig::new();
    let mut random = Random(23);
    for _ in 0..200 {
        let count = 1 + random.next(60) as usize;
        let mut bars = Vec::new();
        let mut last = 1_000_000 + random.next(1_000_000) as i64;
        for i in 0..count {
            let open = last;
            let close = open + random.next(40_000) as i64 - 20_000;
            let high = open.max(close) + random.next(10_000) as i64;
            let low = open.min(close) - random.next(10_000) as i64;
            bars.push(Bar {
                date: Date { year: 2022, month: 1, day: (i % 28) as u32 + 1 },
                open,
                high,
                low,
                close,
            });
            last = close;
        }
        let width = 30 + random.next(1_200) as i32;
        let height = 30 + random.next(800) as i32;
        let scene = layout(&bars, &Size { width, height }, &config).unwrap();

        // Bars are taken while they fit into the room that is left.
        let room = width - 40 - 10;
        let mut shown: Vec<&Bar> = Vec::new();
        for bar in bars.iter() {
            if (shown.len() as i32 + 1) * 15 > room {
                break;
            }
            shown.push(bar);
        }
        shown.reverse();
        assert_eq!(scene.candles.len(), shown.len());
        if shown.is_empty() {
            assert_eq!(scene.ticks.len(), 0);
            continue;
        }
        let highest = shown.iter().map(|b| b.high).max().unwrap();
        let lowest = shown.iter().map(|b| b.low).min().unwrap();
        let scaling = (height as f64 - 20.0) / (price(highest) - price(lowest));
        let mut x = 10.0;
        for (candle, bar) in scene.candles.iter().zip(shown.iter()) {
            let top = price(bar.open.max(bar.close));
            let bottom = price(bar.open.min(bar.close));
            let near = |c: Coord, expected: f64| (value(c) - expected).abs() < 1e-6;
            assert!(near(candle.wick.start.x, x));
            assert!(near(candle.wick.end.x, x));
            assert!(near(candle.wick.start.y, (price(highest) - price(bar.high)) * scaling));
            assert!(near(candle.wick.end.y, (price(highest) - price(bar.low)) * scaling));
            assert!(near(candle.body.origin.x, x - 5.0));
            assert!(near(candle.body.origin.y, (price(highest) - top) * scaling));
            assert!(near(candle.body.width, 10.0));
            assert!(near(candle.body.height, (top - bottom) * scaling));
            assert_eq!(candle.color == config.bullish_color, bar.close >= bar.open);
            // Within the range, wicks stay between row 0 and the baseline.
            assert!(value(candle.wick.start.y) >= 0.0);
            assert!(value(candle.wick.end.y) <= height as f64 - 20.0 + 1e-9);
            x += 15.0;
        }
        let mut above = f64::NEG_INFINITY;
        for tick in scene.ticks.iter() {
            let row = value(tick.tick_line.start.y);
            assert!(row > above);
            assert!(row >= 0.0 && row < height as f64 - 20.0);
            above = row;
        }
    }
}
