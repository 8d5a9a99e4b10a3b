[package]
name = "megadrive"
version = "0.1.0"
edition = "2021"
publish = false

[dependencies]
anyhow = "*"
cargo_metadata = "*"
clap = { version = "*", features = ["derive"] }
duct = "*"
serde = { version = "*", features = ["derive"] }
serde_json = "*"
volatile-register = "*"
