[package]
name = "aranet_charts"
version = "0.1.0"
edition = "2021"
publish = false

[dependencies]
jiff = "0.2"
sonnerie = "0.9"
eframe = { version = "0.32", default-features = false, features = ["default_fonts", "glow", "x11"] }
egui_plot = "0.33"
env_logger = "0.11"
