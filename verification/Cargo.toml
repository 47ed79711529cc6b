[package]
name = "anvil"
version = "0.1.0"
edition = "2021"
publish = false

[dependencies]
bip39 = "*"
clap = { version = "=4.6.7", features = ["derive", "env"] }
ctrlc = "=3.5.2"
serde = { version = "*", features = ["derive"] }
serde_json = "*"
