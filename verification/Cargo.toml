[package]
name = "dmg_core"
version = "0.1.0"
edition = "2021"
publish = false

[dependencies]
double-buffer = "*"
log = "0.4"
postcard = { version = "1", default-features = false, features = ["use-std"] }
ringbuf = "0.4"
serde = { version = "1", features = ["derive"] }
serde-big-array = "0.5"
