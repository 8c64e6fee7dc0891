[package]
name = "igra"
version = "0.1.0"
edition = "2021"
publish = false

[dependencies]
log = "0.4"
num-bigint = "0.4"
num-traits = "0.2"
serde = { version = "1", features = ["derive"] }
thiserror = "1"
