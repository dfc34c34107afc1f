[package]
name = "solana_rpg_engine"
version = "0.1.0"
edition = "2021"
publish = false

[dependencies]
anchor-lang = "*"
