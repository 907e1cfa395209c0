[package]
name = "image_resources"
version = "0.1.0"
edition = "2021"
publish = false

[dependencies]
failure = "=0.1.8"
failure_derive = "=0.1.8"
image = { version = "=0.25.10", default-features = false, features = ["png", "jpeg", "gif", "bmp", "pnm"] }
lazy_static = "=1.5.1"
webrender = "=0.70.0"

[dev-dependencies]
wr_glyph_rasterizer = "=0.70.0"
