[package]
name = "ore_boost"
version = "0.1.0"
edition = "2021"
publish = false

[dependencies]
steel = "=4.0.9"
fixed = "=1.28.0"
solana-program = "=2.3.0"
spl-token = { version = "=4.0.2", features = ["no-entrypoint"] }
spl-associated-token-account = { version = "=6.0.0", features = ["no-entrypoint"] }
clap = { version = "=4.6.7", features = ["derive"] }
