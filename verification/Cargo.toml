[package]
name = "fof"
version = "0.1.0"
edition = "2021"
publish = false

[dependencies]
chrono = { version = "0.4", default-features = false, features = ["clock"] }
csv = "1"
eframe = { version = "0.31", default-features = false, features = ["glow", "default_fonts", "x11"] }
image = { version = "0.25", default-features = false, features = ["png", "jpeg"] }
rand = "0.9"
regex = "1"
rfd = "0.15"
serde = { version = "1", features = ["derive"] }
serde_json = "1"
serde_yaml = "0.9"
