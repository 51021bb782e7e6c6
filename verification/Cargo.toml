[package]
name = "b0xx_viewer"
version = "0.6.0"
edition = "2021"
publish = false

[dependencies]
anyhow = "1"
backoff = "0.4"
chrono = "0.4"
clap = { version = "4", features = ["derive"] }
conrod_core = "0.76"
conrod_glium = "0.76"
conrod_winit = "0.76"
crossbeam-channel = "0.5"
fern = { version = "0.6", features = ["colored"] }
gilrs = "0.10"
glium = "0.28"
lazy_static = "1"
log = "0.4"
rand = { version = "0.8", features = ["small_rng"] }
rgb = "0.8"
rusttype = "0.8"
serde = { version = "1", features = ["derive"] }
serde_with = "1"
serialport = { version = "4", default-features = false }
thiserror = "1"
toml = "0.5"
