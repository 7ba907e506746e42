[package]
name = "rustole"
version = "0.1.0"
edition = "2021"
publish = false

[dependencies]
vte = "=0.15.0"
nix = { version = "=0.31.3", features = ["fs", "poll", "process", "term"] }
winit = "=0.30.13"
wgpu = "=30.0.1"
wgpu_text = "=30.0.1"
glyph_brush = "=0.7.12"
serde = { version = "=1.0.229", features = ["derive"] }
toml = "=1.1.8"
env_logger = "=0.11.11"
