[package]
name = "media_compressor"
version = "0.1.0"
edition = "2021"
publish = false

[dependencies]
dirs = "*"
image = { version = "*", default-features = false, features = ["bmp", "gif", "ico", "jpeg", "png", "pnm", "qoi", "tga", "tiff", "webp"] }
reqwest = { version = "*", default-features = false, features = ["rustls-tls"] }
serde = { version = "*", features = ["derive"] }
tar = "*"
zip = { version = "*", default-features = false, features = ["deflate"] }
