[package]
name = "ferrosaur"
version = "0.1.0"
edition = "2021"
publish = false

[dependencies]
heck = "=0.5.0"
syn = { version = "=2.0.119", features = ["full", "extra-traits"] }
quote = "=1.0.47"
proc-macro2 = { version = "=1.0.107", features = ["span-locations"] }
darling = "=0.21.3"
tap = "=1.0.1"
pulldown-cmark = "=0.13.6"
pulldown-cmark-to-cmark = "=23.0.0"
anyhow = "=1.0.104"
serde = { version = "=1.0.229", features = ["derive"] }
serde_json = "=1.0.154"
toml = "=1.1.8"
cargo_toml = "=1.0.1"
clap = { version = "=4.6.7", features = ["derive"] }
tokio = { version = "=1.54.1", features = ["full"] }
tokio-util = { version = "=0.7.20", features = ["compat"] }
async-lsp = "=0.2.4"
lsp-types = "=0.95.1"
tower = "=0.5.3"
tracing = "=0.1.44"
tracing-subscriber = { version = "=0.3.23", features = ["env-filter"] }
