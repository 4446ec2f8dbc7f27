[package]
name = "egui_dnd"
version = "0.1.0"
edition = "2021"
publish = false

[dependencies]
egui = "*"
eframe = { version = "*", default-features = false, features = ["glow", "x11"] }
egui_extras = "*"
