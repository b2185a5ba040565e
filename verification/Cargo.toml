[package]
name = "kithe_plot"
version = "0.1.0"
edition = "2021"
publish = false

[dependencies]
eframe = { version = "=0.32.3", default-features = false, features = ["default_fonts", "glow", "x11"] }
egui-plotter = "=0.6.0"
plotters = "=0.3.7"
rfd = { version = "=0.16.1", default-features = false, features = ["xdg-portal", "tokio"] }
