//! Exact layout engine for candlestick charts.
//!
//! Given a sequence of price bars (newest first) and a canvas size in
//! pixels, the engine selects the bars that fit, derives the price range,
//! picks a tick spacing for the price axis and produces the primitives to
//! draw: axis lines, ticks with labels, and one candle per visible bar.
//!
//! All arithmetic is exact. Prices are fixed-point integers counted in
//! price units ([`types::PRICE_UNIT`] units make one whole unit of price),
//! and pixel coordinates are fractions of integers ([`geometry::Coord`]),
//! so no rounding takes place before the renderer asks for it.

pub mod candles;
pub mod chart_widget;
pub mod config;
pub mod error;
pub mod geometry;
pub mod range;
pub mod scale;
pub mod scene;
pub mod selection;
pub mod text;
pub mod ticks;
pub mod types;

pub use chart_widget::ChartWidget;
pub use config::ChartConfig;
pub use error::LayoutError;
pub use geometry::{Color, Coord, Line, Point, Rect};
pub use range::PriceRange;
pub use scene::{layout, Scene};
pub use types::{Bar, Chart, Date, Size, PRICE_UNIT};
