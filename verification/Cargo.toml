[package]
name = "szafka"
version = "0.1.0"
edition = "2021"
publish = false

[dependencies]
serde = "1"
serde_json = "1"
fs-err = "*"
tokio = { version = "1", features = ["fs", "io-util"] }

[dev-dependencies]
rand = "0.8"
hex = "0.4"
