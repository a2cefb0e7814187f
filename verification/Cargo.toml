[package]
name = "hyperion_core"
version = "0.1.0"
edition = "2021"
publish = false

[dependencies]
serde = { version = "1", features = ["derive"] }
toml = "0.8"
crossbeam-channel = "0.5"
ctrlc = "3"
eframe = { version = "0.31", default-features = false, features = ["default_fonts", "glow", "x11"] }
tray-icon = { version = "0.19", default-features = false }
