[package]
name = "poseidon_common"
version = "0.1.0"
edition = "2021"
publish = false

[dependencies]
borsh = { version = "1", features = ["derive"] }
hex = "0.4"
minreq = { version = "~2.6", features = ["https-rustls", "proxy", "punycode"] }
rustls = "0.20"
sct = "0.7"
serde = { version = "1", features = ["derive"] }
serde_json = "1"
sled = "0.34"
