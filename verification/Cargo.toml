[package]
name = "tracer"
version = "0.1.0"
edition = "2021"
publish = false

[dependencies]
glam = { version = "0.24", features = ["rand", "serde"] }
image = { version = "0.24", default-features = false, features = ["png", "jpeg"] }
log = "0.4"
rand = "0.8"
rayon = "1"
serde = { version = "1", features = ["derive"] }
thiserror = "1"
