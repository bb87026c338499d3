[package]
name = "coldsonic"
version = "0.1.0"
edition = "2021"
publish = false

[dependencies]
directories = "6.0.0"
toml = "*"
serde = { version = "1", features = ["derive"] }
opensubsonic = "0.6.1"
async-compat = "0.2.6"
bytes = "1"
anyhow = "1"
