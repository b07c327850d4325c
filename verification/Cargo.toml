[package]
name = "rust_knowledge"
version = "0.1.0"
edition = "2021"
publish = false

[dependencies]
sha2 = "0.10"
base64 = "0.22"
serde = { version = "1", features = ["derive"] }
serde_json = "1"
cargo_metadata = "*"
rustdoc-types = "*"
home = "*"
clap = { version = "4", features = ["derive"] }
toml = "*"
tracing = "0.1"
tracing-subscriber = { version = "0.3", features = ["env-filter"] }
thiserror = "*"
anyhow = "1"
facet = "*"
facet-reflect = "*"
figue = "*"
