[package]
name = "seedshotter"
version = "0.1.0"
edition = "2021"
publish = false

[dependencies]
eframe = { version = "=0.32.3", default-features = false, features = ["default_fonts", "glow", "persistence", "x11"] }
egui = { version = "=0.32.3", default-features = false }
futures = "=0.3.34"
notify = "=8.2.0"
rfd = "=0.15.4"
serde = { version = "=1.0.229", features = ["derive"] }
url = "=2.5.8"
wasm-bindgen-futures = "=0.4.79"
