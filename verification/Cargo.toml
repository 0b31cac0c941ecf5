[package]
name = "ev_charging"
version = "0.1.0"
edition = "2021"
publish = false

[dependencies]
anchor-lang = { version = "0.30.1", features = ["init-if-needed"] }
anchor-spl = { version = "0.30.1", default-features = false, features = ["token"] }
borsh = { version = "1", features = ["derive"] }
solana-program = "1.18"
