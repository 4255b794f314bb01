[package]
name = "logkit"
version = "0.1.0"
edition = "2021"
publish = false

[dependencies]
chrono = "0.4"
fern = "0.7"
log = "0.4"
serde = "1"
serde_repr = "0.1"
