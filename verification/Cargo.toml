[package]
name = "mm"
version = "0.1.0"
edition = "2021"
publish = false

[dependencies]
ndarray = "0.15"
plotters = { version = "0.3", default-features = false, features = ["bitmap_backend", "bitmap_encoder", "line_series"] }
rand = "0.8"
rand_distr = "0.4"
