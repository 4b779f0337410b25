[package]
name = "aircard"
version = "0.1.0"
edition = "2021"
publish = false

[dependencies]
anyhow = "=1.0.104"
image = { version = "=0.25.10", default-features = false, features = ["png", "jpeg", "webp"] }
plist = "=1.10.3"
serde = { version = "=1.0.229", features = ["derive"] }
serde_json = "=1.0.154"
egui = { version = "=0.32.3", default-features = false }
eframe = { version = "=0.32.3", default-features = false, features = ["default_fonts", "glow", "x11"] }
rfd = { version = "=0.17.2", default-features = false, features = ["gtk3"] }
