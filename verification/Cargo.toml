[package]
name = "shared_consts"
version = "0.1.0"
edition = "2021"
publish = false

[dependencies]
serde = { version = "1", features = ["derive"] }
serde_json = "1"
bincode = "1"
simple-error = "0.2"
lazy_static = "1"
winapi = { version = "0.3", features = ["winuser", "windef", "minwindef"] }
enigo = "0.0"
web-view = "0.2"
libxdo-sys = "0.11"
