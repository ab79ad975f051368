[package]
name = "anchor_litesvm"
version = "0.1.0"
edition = "2021"
publish = false

[dependencies]
base64 = "0.22"
sha2 = "0.10"
solana-program = "2.2"
solana-program-pack = "2.2"
spl-associated-token-account = "7"
spl-token = "8"

[dev-dependencies]
borsh = "1"
