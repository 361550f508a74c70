[package]
name = "compressed_notes"
version = "0.1.0"
edition = "2021"
publish = false

[dependencies]
anchor-lang = "=0.31.2"
spl-account-compression = { version = "=1.0.0", features = ["cpi"] }

[dev-dependencies]
borsh = "=0.10.4"
spl-concurrent-merkle-tree = "=1.0.0"
