[package]
name = "rustcraft"
version = "0.1.0"
edition = "2021"
publish = false

[dependencies]
gl = "*"
sdl2 = "*"
serde = { version = "*", features = ["derive"] }
serde_json = "*"
