[package]
name = "doh"
version = "0.1.0"
edition = "2021"
publish = false

[dependencies]
base64 = "=0.23.1"
hmac = "=0.13.0"
sha1 = "=0.11.0"
sha2 = "=0.11.0"
image = { version = "=0.25.10", default-features = false, features = ["bmp", "dds", "ff", "gif", "hdr", "ico", "jpeg", "png", "pnm", "qoi", "tga", "tiff", "webp"] }
nostr-sdk = "=0.45.4"
serde = { version = "=1.0.229", features = ["derive"] }
serde_json = "=1.0.151"
anyhow = "=1.0.104"
chrono = "=0.4.45"
keyring = "=4.2.0"
reqwest = { version = "=0.13.5", default-features = false, features = ["json", "multipart"] }
tokio = { version = "=1.53.2", features = ["rt-multi-thread", "macros", "time"] }
zbus = "=5.19.0"
