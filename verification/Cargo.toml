[package]
name = "grm"
version = "0.1.0"
edition = "2021"
publish = false

[dependencies]
regex = "=1.13.1"
url-escape = "=0.1.2"
parse_link_header = "=0.4.1"
shellexpand = "=3.1.2"
serde = { version = "=1.0.229", features = ["derive"] }
serde_yaml = "=0.9.34"
toml = "=0.8.23"
clap = { version = "=4.6.7", features = ["derive", "cargo"] }
console = "=0.15.11"
comfy-table = "=7.2.2"
camino = "=1.2.6"
ureq = { version = "=3.5.1", features = ["json"] }
git2 = { version = "=0.20.4", default-features = false }
