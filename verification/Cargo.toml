[package]
name = "polars_rows_iter"
version = "0.1.0"
edition = "2021"
publish = false

[dependencies]
polars = { version = "0.46", default-features = false, features = ["dtype-categorical", "dtype-date", "dtype-datetime", "dtype-duration", "dtype-time", "dtype-i8", "dtype-i16", "dtype-u8", "dtype-u16"] }
chrono = { version = "0.4", default-features = false, features = ["std"] }
syn = { version = "2", features = ["full"] }
quote = "1"
proc-macro2 = "1"
deluxe = "0.5"

[dev-dependencies]
rand = "0.8"
