[package]
name = "ductile"
version = "0.1.0"
edition = "2021"
publish = false

[dependencies]
bincode = "1"
chacha20 = "0.4"
crossbeam-channel = "0.4"
failure = "0.1"
log = "0.4"
rand = "0.7"
serde = { version = "1", features = ["derive"] }
