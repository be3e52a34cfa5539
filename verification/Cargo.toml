[package]
name = "nota"
version = "0.1.0"
edition = "2021"
publish = false

[dependencies]
anyhow = "1"
base64 = "0.22"
chrono = "0.4"
crossbeam-channel = "0.5"
dirs = "6"
fs2 = "0.4"
log = "0.4"
ogg = "0.9"
opus = "0.3"
parking_lot = "0.12"
png = "0.17"
rand = "0.9"
reqwest = { version = "0.12", default-features = false, features = ["blocking", "json", "multipart", "rustls-tls"] }
rubato = "0.15"
serde = { version = "1", features = ["derive"] }
serde_json = "1"
sha2 = "0.10"
symphonia = "0.5"
uuid = { version = "1", features = ["v4"] }
