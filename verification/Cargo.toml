[package]
name = "clap_serde"
version = "0.1.0"
edition = "2021"
publish = false

[dependencies]
clap = { version = "=4.6.7", features = ["env", "string"] }
convert_case = "=0.12.0"
serde = { version = "=1.0.229", features = ["derive"] }
yaml-rust = "=0.4.5"
