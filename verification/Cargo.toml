[package]
name = "minecraft_skins"
version = "0.1.0"
edition = "2021"
publish = false

[dependencies]
image = { version = "=0.23.14", default-features = false, features = ["png"] }
color-thief = "=0.2.2"
nutexb = "=0.0.5"
percent-encoding = "=2.3.2"
base64 = "=0.13.1"
parking_lot = "=0.12.5"
serde = { version = "=1.0.229", features = ["derive"] }
serde_json = "=1.0.154"
ramhorns = "=0.14.0"
minreq = { version = "=2.14.1", features = ["json-using-serde"] }
lazy_static = "=1.5.1"
skyline = "=0.6.0"
skyline-web = "=0.2.0"
