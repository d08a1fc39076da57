[package]
name = "tcg-bound"
version = "0.1.0"
edition = "2021"
publish = false

[dependencies]
eframe = { version = "=0.31.1", default-features = false, features = ["default_fonts", "glow", "persistence", "x11"] }
egui = "=0.31.1"
egui_extras = "=0.31.1"
egui_flex = "=0.3.0"
serde = { version = "=1.0.229", features = ["derive"] }
