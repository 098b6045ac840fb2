[package]
name = "camera_pipeline"
version = "0.1.0"
edition = "2021"
publish = false

[dependencies]
anyhow = "=1.0.104"
eframe = { version = "0.24", default-features = false, features = ["default_fonts", "glow", "x11"] }
egui_extras = { version = "0.24", features = ["image"] }
epaint = "0.24"
image = { version = "=0.24.9", default-features = false, features = ["jpeg"] }
linux-video = "=0.1.1"
