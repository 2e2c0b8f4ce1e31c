[package]
name = "better_than_you"
version = "0.1.0"
edition = "2021"
publish = false

[dependencies]
anyhow = "1"
arboard = { version = "3", default-features = false }
base64 = "0.22"
chrono = "0.4"
clap = { version = "4", features = ["derive"] }
crossterm = "0.28"
font8x8 = "0.3"
image = { version = "0.25", default-features = false, features = ["png", "jpeg", "webp"] }
local-ip-address = "0.6"
qrcode = { version = "0.14", default-features = false }
ratatui = "0.29"
ratatui-image = "8"
reqwest = { version = "0.12", default-features = false, features = ["json", "multipart", "rustls-tls"] }
serde = { version = "1", features = ["derive"] }
serde_json = "1"
sha2 = "0.10"
tiny_http = "0.12"
tokio = { version = "1", features = ["macros", "rt-multi-thread"] }
urlencoding = "2"
