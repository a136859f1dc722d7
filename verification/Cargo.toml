[package]
name = "rust_kanban"
version = "0.1.0"
edition = "2021"
publish = false

[dependencies]
chrono = "0.4"
clap = { version = "4", features = ["derive"] }
crossterm = "*"
eyre = "0.6"
home = "*"
log = "0.4"
ratatui = "*"
savefile = "*"
savefile-derive = "*"
serde = { version = "1", features = ["derive"] }
serde_json = "1"
tokio = { version = "1", features = ["full"] }
tui = "0.19"
tui-logger = "*"

[dev-dependencies]
regex = "1"
