[package]
name = "maskedit"
version = "0.1.0"
edition = "2021"
publish = false

[dependencies]
eframe = { version = "=0.19.0", default-features = false, features = ["glow", "default_fonts"] }
egui_glow = "=0.19.0"
epaint = "=0.19.0"
glow = "=0.11.2"
three-d = { version = "=0.11.3", default-features = false }
