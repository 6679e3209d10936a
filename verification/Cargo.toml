[package]
name = "spray_selector"
version = "0.1.0"
edition = "2021"
publish = false

[dependencies]
vtf = "=0.4.1"
image = { version = "=0.25.10", default-features = false }
eframe = { version = "=0.33.3", default-features = false, features = ["default_fonts", "glow", "x11"] }
catppuccin-egui = { version = "=5.7.0", default-features = false, features = ["egui33"] }
serde = { version = "=1.0.229", features = ["derive"] }
serde_json = "=1.0.154"
