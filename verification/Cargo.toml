[package]
name = "player_core"
version = "0.1.0"
edition = "2021"
publish = false

[dependencies]
swf = "=0.3.0"
wgpu = { version = "*", default-features = false }
