[package]
name = "razer_control"
version = "0.1.0"
edition = "2021"
publish = false

[dependencies]
serde = { version = "1", features = ["derive"] }
bincode = "1"
serde_json = "1"
ksni = "0.3"
libc = "0.2"
