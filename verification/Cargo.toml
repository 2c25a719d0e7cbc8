[package]
name = "icrc151"
version = "0.1.0"
edition = "2021"
publish = false

[dependencies]
candid = "0.10"
ic-cdk = "0.16"
ic-stable-structures = "0.6"
num-traits = "0.2"
serde = { version = "1", features = ["derive"] }
sha2 = "0.10"
