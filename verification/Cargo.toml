[package]
name = "tenzro_cli"
version = "0.1.0"
edition = "2021"
publish = false

[dependencies]
anyhow = "1"
ark-bn254 = "*"
ark-ec = "*"
ark-serialize = "*"
clap = { version = "4", features = ["derive"] }
dialoguer = "*"
serde_json = "1"
tokio = { version = "1", features = ["full"] }

[dev-dependencies]
hex = "*"
