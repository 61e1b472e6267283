[package]
name = "candle_chart"
version = "0.1.0"
edition = "2021"
publish = false

[dependencies]
chrono = "0.4"
config = "0.10"
druid = "0.7"
postgres = { version = "0.19", features = ["with-chrono-0_4"] }
rust_decimal = { version = "1", features = ["db-postgres"] }
