[package]
name = "mnist_cnn"
version = "0.1.0"
edition = "2021"
publish = false

[dependencies]
candle-core = "*"
candle-nn = "*"
candle-datasets = "*"
clap = { version = "*", features = ["derive"] }
rand = "*"
