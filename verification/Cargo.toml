[package]
name = "klafsa"
version = "0.1.0"
edition = "2021"
publish = false

[dependencies]
which = "*"
gltf = { version = "*", default-features = false }
clap = { version = "*", features = ["derive"] }
indicatif = "*"
tracing = "*"
tracing-subscriber = { version = "*", features = ["env-filter"] }
