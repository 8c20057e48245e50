[package]
name = "clialogs"
version = "0.1.0"
edition = "2021"
publish = false

[dependencies]
chrono = "=0.4.45"
clap = { version = "=4.6.7", features = ["derive"] }
eframe = { version = "=0.37.0", default-features = false, features = ["default_fonts", "wgpu", "x11"] }
egui = "=0.37.0"
egui_extras = { version = "=0.37.0", features = ["datepicker", "image"] }
image = { version = "=0.25.10", default-features = false, features = ["png"] }
jiff = { version = "=0.2.38", default-features = false, features = ["std"] }
notify-rust = "=4.18.2"
regex = "=1.13.1"
rfd = "=0.17.2"
serde = { version = "=1.0.229", features = ["derive"] }
serde_json = "=1.0.154"
