[package]
name = "candle_aqua"
version = "0.1.0"
edition = "2021"
publish = false

[dependencies]
anyhow = "1"
clap = { version = "4", features = ["derive"] }
half = "2"
rayon = "1"
zerocopy = "0.8"
