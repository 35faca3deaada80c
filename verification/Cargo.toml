[package]
name = "remi_osc"
version = "0.1.0"
edition = "2021"
publish = false

[dependencies]
directories = "*"
openvr = "*"
rosc = "*"
serde = { version = "1", features = ["derive"] }
serde_json = "1"
