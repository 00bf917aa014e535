[package]
name = "tonegen"
version = "0.1.0"
edition = "2021"
publish = false

[dependencies]
clap = { version = "4", features = ["derive"] }
hound = "3"
rand = "0.8"
serde = { version = "1", features = ["derive"] }
serde-lexpr = "0.1"
thiserror = "1"
