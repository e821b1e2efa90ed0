[package]
name = "token_metadata"
version = "0.1.0"
edition = "2021"
publish = false

[dependencies]
solana-program = "=1.18.26"
spl-token = { version = "=4.0.3", features = ["no-entrypoint"] }
mpl-token-auth-rules = { version = "=0.2.5", features = ["no-entrypoint"] }
mpl-utils = "=0.3.6"
