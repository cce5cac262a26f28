[package]
name = "glassmarlin"
version = "0.1.0"
edition = "2021"
publish = false

[dependencies]
anyhow = "1"
env_logger = "0.11"
getrandom = "0.2"
hex = "0.4"
libc = "0.2"
log = "0.4"
portpicker = "0.1"
sha2 = "0.10"
tar = "0.4"
tokio = { version = "1", features = ["time", "rt"] }
ureq = { version = "2", default-features = false }
zstd = "0.13"
