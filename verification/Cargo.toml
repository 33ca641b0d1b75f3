[package]
name = "provider_launcher"
version = "0.1.0"
edition = "2021"
publish = false

[dependencies]
clap = { version = "4", features = ["derive"] }
crossterm = "*"
dirs = "*"
heed = { version = "*", features = ["serde-bincode"] }
iso_currency = "*"
itertools = "*"
jiff = "*"
ratatui = "*"
ratatui-textarea = "*"
serde = { version = "1", features = ["derive"] }
serde_json = "1"
ureq = { version = "3", features = ["json"] }
xdg = "*"
