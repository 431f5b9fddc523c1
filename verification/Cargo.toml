[package]
name = "bitty"
version = "0.1.0"
edition = "2021"
publish = false

[dependencies]
anchor-lang = "=1.2.1"
anchor-spl = "=1.2.1"
mpl-token-metadata = "=5.1.1"
spl-associated-token-account = "=8.0.0"
solana-program = "=5.1.0"
