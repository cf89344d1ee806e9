[package]
name = "ttmp"
version = "0.1.0"
edition = "2021"
publish = false

[dependencies]
rand = "0.9"
ratatui = "*"
rodio = "*"
souvlaki = { version = "*", default-features = false, features = ["use_zbus"] }
ron = "*"
serde = { version = "1", features = ["derive"] }
dirs = "*"
thiserror = "2"
