[package]
name = "sitewatch"
version = "0.1.0"
edition = "2021"
publish = false

[dependencies]
image = "*"
image-compare = "*"
serde = { version = "*", features = ["derive"] }
toml = "*"
tokio = { version = "*", features = ["full"] }
futures = "*"
chromiumoxide = "*"
pushover-rs = "*"
dotenv = "*"
once_cell = "*"
anyhow = "*"
