[package]
name = "signal_vault"
version = "0.1.0"
edition = "2021"
publish = false

[dependencies]
blake2 = "0.10"
minicbor = { version = "*", features = ["derive", "std"] }
tari_template_lib = "*"
