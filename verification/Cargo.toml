[package]
name = "wif"
version = "0.1.0"
edition = "2021"
publish = false

[dependencies]
image = { version = "0.23", default-features = false, features = ["png", "jpeg", "bmp", "ico", "tga", "tiff"] }
png = "0.16"
jpeg-decoder = { version = "0.1", default-features = false }
serde = { version = "1", features = ["derive"] }
serde_json = "1"
log = "0.4"
pretty_env_logger = "0.4"
lazy_static = "1"
tide = "0.16"
tide-compress = "*"
async-std = { version = "1", features = ["attributes"] }
warp = "0.3"
