[package]
name = "nephelios-cli"
version = "1.0.0"
edition = "2021"
publish = false

[dependencies]
anyhow = "1"
bollard = "0.18"
clap = { version = "4", features = ["derive"] }
dotenv = "0.15"
futures-util = "0.3"
indicatif = "0.17"
reqwest = { version = "0.12", default-features = false, features = ["json"] }
serde_json = "1"
tokio = { version = "1", features = ["full"] }
