[package]
name = "vidu-cli"
version = "0.1.0"
edition = "2021"
publish = false

[dependencies]
clap = { version = "4", features = ["derive"] }
image = { version = "0.25", default-features = false, features = ["jpeg", "png", "bmp", "webp"] }
lofty = "0.22"
mime_guess = "2"
mp4parse = "0.17"
reqwest = { version = "0.12", default-features = false, features = ["blocking", "json", "rustls-tls"] }
serde_json = "1"
tempfile = "3"
uuid = { version = "1", features = ["v4"] }
