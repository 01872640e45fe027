[package]
name = "xline_error"
version = "0.1.0"
edition = "2021"
publish = false

[dependencies]
serde = { version = "1", features = ["derive"] }
thiserror = "1"
tonic = { version = "*", default-features = false }
