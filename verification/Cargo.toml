[package]
name = "feature_flag_gen"
version = "0.1.0"
edition = "2021"
publish = false

[dependencies]
rand = "0.8"
fake = "2"
chrono = "0.4"
clap = { version = "4", features = ["derive", "env"] }
serde_json = "1"
unleash-types = "*"
