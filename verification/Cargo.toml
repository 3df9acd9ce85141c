[package]
name = "pallet_contracts_xcm"
version = "0.1.0"
edition = "2021"
publish = false

[dependencies]
impl-serde = "0.4"
log = "0.4"
num_enum = "0.7"
parity-scale-codec = { version = "3", features = ["derive"] }
scale-info = "2"
serde = { version = "1", features = ["derive"] }
serde_json = "1"
sp-weights = "27.0.0"
staging-xcm = "7.0.0"
