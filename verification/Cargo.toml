[package]
name = "bili_comment"
version = "0.1.0"
edition = "2021"
publish = false

[dependencies]
base64 = "0.22"
chrono = { version = "0.4", default-features = false, features = ["clock", "std"] }
dirs = "5"
image = { version = "0.25", default-features = false, features = ["png"] }
log = "0.4"
once_cell = "1"
parking_lot = "0.12"
qrcode = { version = "0.14", default-features = false, features = ["image"] }
reqwest = { version = "0.12", default-features = false, features = ["json", "cookies", "rustls-tls"] }
serde = { version = "1", features = ["derive"] }
serde_json = "1"
thiserror = "1"
tokio = { version = "1", features = ["rt-multi-thread", "time", "macros"] }
url = "2"
uuid = { version = "1", features = ["v4"] }
