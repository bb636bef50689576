[package]
name = "truelayer-cli"
version = "0.1.0"
edition = "2021"
publish = false

[dependencies]
actix-web = "4"
anyhow = "1"
clap = { version = "4", features = ["derive"] }
colored = "2"
futures-util = "0.3"
json = "0.12"
regex = "1"
reqwest = { version = "*", features = ["json"] }
reqwest-middleware = "*"
reqwest-retry = "*"
serde = { version = "1", features = ["derive"] }
serde_json = "1"
tokio = { version = "1", features = ["full"] }
truelayer-rust = "*"
url = "2"
