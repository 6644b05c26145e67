[package]
name = "photogeoview"
version = "0.1.0"
edition = "2021"
publish = false

[dependencies]
kamadak-exif = "*"
image = { version = "*", default-features = false, features = ["jpeg", "png", "tiff", "webp"] }
base64 = "*"
serde = { version = "*", features = ["derive"] }
thiserror = "*"
chrono = "*"
log = "*"
tracing = "*"
