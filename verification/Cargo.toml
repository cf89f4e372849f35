[package]
name = "judo"
version = "0.1.0"
edition = "2021"
publish = false

[dependencies]
anyhow = "1"
async-trait = "0.1"
chrono = "0.4"
crossterm = "0.28"
home = "0.5"
notify = "6"
ratatui = "0.29"
serde = { version = "1", features = ["derive"] }
tokio = { version = "1", features = ["full"] }
toml = "0.8"
tui-textarea = "0.7"

[dev-dependencies]
rand = "0.8"
