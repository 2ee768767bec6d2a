[package]
name = "egui_plot"
version = "0.1.0"
edition = "2021"
publish = false

[dependencies]
emath = "=0.18.0"
epaint = { version = "=0.18.1", features = ["serde"] }
serde = { version = "=1.0.229", features = ["derive"] }
