[package]
name = "contract_whist"
version = "0.1.0"
edition = "2021"
publish = false

[dependencies]
color-eyre = "*"
crossterm = "*"
ratatui = "*"
serde = { version = "*", features = ["derive"] }
serde_json = "*"
tokio = { version = "*", features = ["full"] }
