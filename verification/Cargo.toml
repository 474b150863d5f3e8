[package]
name = "crcli"
version = "0.1.0"
edition = "2021"
publish = false

[dependencies]
sled = "=0.34.7"
http = "=1.5.0"
chrono = "=0.4.45"
base64 = "=0.22.1"
urlencoding = "=2.1.3"
url = "=2.5.8"
md5 = "=0.7.0"
serde = { version = "=1.0.229", features = ["derive"] }
serde_json = "=1.0.154"
serde_urlencoded = "=0.7.1"
serde_repr = "=0.1.21"
anyhow = "=1.0.104"
getifaddrs = "=0.6.2"
reqwest = { version = "=0.12.28", default-features = false, features = ["json"] }
tokio = { version = "=1.54.1", features = ["rt", "sync", "time", "net", "fs", "io-util"] }
bytes = "=1.12.1"
walkdir = "=2.5.0"
futures-util = "=0.3.34"
stunclient = "=0.4.2"
image = { version = "0.25", default-features = false, features = ["jpeg", "png", "gif", "bmp", "webp"] }
