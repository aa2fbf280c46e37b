[package]
name = "aurora"
version = "0.1.0"
edition = "2021"
publish = false

[dependencies]
serde = { version = "=1.0.229", features = ["derive"] }
serde_json = "=1.0.154"
clap = { version = "=4.6.7", features = ["derive"] }
crossbeam-channel = "=0.5.17"
libc = "=0.2.191"
rand = "=0.9.5"
dirs = "=7.0.0"
signal-hook = "=0.3.18"
hidapi = "=2.6.7"
device_query = "=4.0.1"
scrap = "0.5"
fast_image_resize = "5"
photon-rs = { version = "0.3", default-features = false }
