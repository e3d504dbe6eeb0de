[package]
name = "handy"
version = "0.1.0"
edition = "2021"
publish = false

[dependencies]
regex = "1"
image = { version = "*", default-features = false, features = ["png"] }
ico = "*"
log = "0.4"
serde = { version = "1", features = ["derive"] }
