[package]
name = "comic_downloader"
version = "0.1.0"
edition = "2021"
publish = false

[dependencies]
rand = "=0.10.3"
strfmt = "=0.2.6"
regex-lite = "=0.1.9"
anyhow = "=1.0.104"
bytes = "=1.12.1"
image = "=0.25.10"
parking_lot = "=0.13.0"
serde = { version = "=1.0.229", features = ["derive"] }
serde_json = "=1.0.154"
tokio = { version = "=1.54.1", features = ["rt-multi-thread", "sync", "time", "macros"] }
tracing = "=0.1.44"
walkdir = "=2.5.0"
rayon = "=1.12.0"
uuid = { version = "=1.29.0", features = ["v4"] }
float-ord = "=0.3.2"
zip = { version = "=9.0.5", default-features = false, features = ["deflate"] }
lopdf = { version = "=0.46.0", features = ["embed_image"] }
yaserde = "*"
yaserde_derive = "*"
