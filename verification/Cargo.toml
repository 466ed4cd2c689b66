[package]
name = "lockstep"
version = "0.1.0"
edition = "2021"
publish = false

[dependencies]
bevy = { version = "=0.5.0", default-features = false, features = ["render"] }
darling_macro = "=0.10.2"
rand = "=0.8.8"
serde = { version = "=1.0.229", features = ["derive"] }
