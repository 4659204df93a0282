[package]
name = "double_pendulum"
version = "0.1.0"
edition = "2021"
publish = false

[dependencies]
ordered-float = { version = "4", features = ["rand", "serde"] }
rand = "0.8"
rand_pcg = "0.3"
serde = { version = "1", features = ["derive"] }
derive-new = "0.6"
