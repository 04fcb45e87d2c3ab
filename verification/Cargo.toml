[package]
name = "rest_reminder"
version = "0.1.0"
edition = "2021"
publish = false

[dependencies]
fastrand = "2"
eframe = { version = "0.29", default-features = false, features = ["default_fonts", "glow", "x11"] }
raw-window-handle = "0.6"
serde = { version = "1", features = ["derive"] }
tray-icon = "0.19"
