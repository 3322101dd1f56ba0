[package]
name = "project1"
version = "0.1.0"
edition = "2021"
publish = false

[dependencies]
eframe = { version = "*", default-features = false, features = ["glow", "persistence", "x11"] }
egui = "*"
rfd = "*"
serde = { version = "*", features = ["derive"] }
env_logger = "*"
