[package]
name = "dive-deco-bridge"
version = "0.1.0"
edition = "2021"
publish = false

[dependencies]
dive-deco = { version = "*", features = ["serde"] }
once_cell = "*"
serde = { version = "*", features = ["derive"] }
serde_json = "*"
