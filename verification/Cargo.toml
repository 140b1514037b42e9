[package]
name = "xero"
version = "0.1.0"
edition = "2021"
publish = false

[dependencies]
candid = "*"
chrono = { version = "*", default-features = false, features = ["std"] }
ic-cdk = "*"
ic-cdk-macros = "*"
ic-stable-structures = "*"
serde = { version = "*", features = ["derive"] }
serde_json = "*"
