[package]
name = "window_service"
version = "0.1.0"
edition = "2021"
publish = false

[dependencies]
bincode = "1"
rayon = "1"
serde = { version = "1", features = ["derive"] }
sys-info = "0.9"
