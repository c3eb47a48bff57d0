[package]
name = "backdrop"
version = "0.1.0"
edition = "2021"
publish = false

[dependencies]
avif-parse = "=2.1.0"
blake3 = "=1.8.7"
chrono = "=0.4.45"
fraction = "=0.17.0"
image = { version = "=0.25.10", default-features = false, features = ["png", "jpeg"] }
infer = "=0.22.0"
kamadak-exif = "=0.6.1"
matroska = "=0.30.1"
mp4parse = "=0.17.0"
nom-exif = "=3.8.0"
uuid = { version = "=1.27.0", features = ["v4"] }
