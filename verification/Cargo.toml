[package]
name = "egui_moon_code_ide"
version = "0.1.0"
edition = "2021"
publish = false

[dependencies]
anyhow = "1.0.104"
egui = "0.33.3"
