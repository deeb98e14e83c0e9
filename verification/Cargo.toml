[package]
name = "cargo-crapapp"
version = "0.1.0"
edition = "2021"
publish = false

[dependencies]
anyhow = "1"
cab = "*"
cargo_metadata = "*"
cfb = "*"
clap = { version = "4", features = ["derive"] }
directories = "*"
editpe = "*"
image = { version = "*", default-features = false, features = ["png", "ico"] }
msi = "*"
serde = { version = "1", features = ["derive"] }
serde_json = "1"
toml = "*"
uuid = { version = "1", features = ["v5"] }
