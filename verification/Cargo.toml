[package]
name = "farmer_signing"
version = "0.1.0"
edition = "2021"
publish = false

[dependencies]
async-trait = "*"
blst = "*"
dg_xch_clients = "*"
dg_xch_core = "*"
dg_xch_keys = "*"
dg_xch_pos = "*"
dg_xch_serialize = "*"
log = "*"
serde = { version = "*", features = ["derive"] }
serde_yaml = "*"
tokio = { version = "*", features = ["sync", "rt", "macros"] }
tokio-tungstenite = "*"
uuid = { version = "*", features = ["v4"] }
