[package]
name = "object_editor"
version = "0.1.0"
edition = "2021"
publish = false

[dependencies]
glam = "*"
once_cell = "*"
parking_lot = "*"
samp = "*"
serde = { version = "*", features = ["derive"] }
serde_json = "*"
