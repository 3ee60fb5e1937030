[package]
name = "nightfury"
version = "0.1.0"
edition = "2021"
publish = false

[dependencies]
anchor-lang = "=0.26.0"
clockwork-sdk = "=2.0.1"
clockwork-thread-program = { version = "=2.0.1", features = ["cpi"] }
clockwork-network-program = { version = "=2.0.1", features = ["cpi"] }
clockwork-cron = "=2.0.1"
clockwork-utils = "=2.0.1"
mpl-token-metadata = { version = "=1.13.2", features = ["no-entrypoint"] }
mpl-utils = "=0.3.1"
solana-program = "=1.16.25"
spl-token = { version = "=4.0.0", features = ["no-entrypoint"] }
spl-memo = { version = "=4.0.0", features = ["no-entrypoint"] }
spl-associated-token-account = { version = "=1.1.3", features = ["no-entrypoint"] }
