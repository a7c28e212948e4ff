[package]
name = "vault_sync"
version = "0.1.0"
edition = "2021"
publish = false

[dependencies]
clap = "*"
hashicorp_vault = "*"
log = "*"
serde = { version = "*", features = ["derive"] }
serde_json = "*"
serde_repr = "*"
serde_yaml = "*"
simplelog = "*"
