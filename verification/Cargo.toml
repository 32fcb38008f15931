[package]
name = "fancal"
version = "0.1.0"
edition = "2021"
publish = false

[dependencies]
dialoguer = "*"
glob = "*"
nix = { version = "*", features = ["user"] }
serde = { version = "*", features = ["derive"] }
serde_json = "*"
