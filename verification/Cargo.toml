[package]
name = "bootc_install"
version = "0.1.0"
edition = "2021"
publish = false

[dependencies]
anyhow = "1"
camino = { version = "1", features = ["serde1"] }
cap-std-ext = "4"
clap = { version = "4", features = ["derive"] }
nix = { version = "*", features = ["fs", "process"] }
ostree-ext = "*"
serde = { version = "1", features = ["derive"] }
serde_json = "1"
tempfile = "3"
tokio = { version = "1", features = ["rt", "rt-multi-thread", "macros"] }
tracing = "0.1"
uuid = { version = "1", features = ["v4"] }
