[package]
name = "easysplash"
version = "0.1.0"
edition = "2021"
publish = false

[dependencies]
toml = "0.5"
async-std = { version = "1", features = ["unstable", "attributes"] }
argh = "0.1"
anyhow = "1"
log = "0.4"
simple-logging = "2"
gstreamer = "0.16"
