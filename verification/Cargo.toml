[package]
name = "cw-zk-base"
version = "0.1.0"
edition = "2021"
publish = false

[dependencies]
ark-bn254 = "0.3"
ark-ec = "0.3"
ark-ff = "0.3"
ark-groth16 = { version = "0.3", default-features = false }
ark-relations = "0.3"
chrono = { version = "0.4", default-features = false, features = ["std"] }
cosmwasm-schema = "1.2"
cosmwasm-std = "1.2"
cw2 = "1.0"
schemars = "0.8"
serde = { version = "1.0", features = ["derive"] }
serde_json = "1.0"
