[package]
name = "sysfs_gpio"
version = "0.1.0"
edition = "2021"
publish = false

[dependencies]
nix = "0.26"
mio = { version = "0.8", features = ["os-poll", "os-ext"] }
tokio = { version = "1", features = ["net", "rt"] }
futures = "0.3"
