[package]
name = "dirty"
version = "0.1.0"
edition = "2021"
publish = false

[dependencies]
glow = "*"
glutin = "0.21"
gl = "*"
sdl2 = "*"
image = { version = "*", default-features = false, features = ["png"] }
rodio = "0.11"
serde = { version = "1", features = ["derive"] }
serde_json = "1"
derive_more = { version = "*", features = ["full"] }
