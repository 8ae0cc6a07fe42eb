[package]
name = "validator_store"
version = "0.1.0"
edition = "2021"
publish = false

[dependencies]
parking_lot = "0.12"
slog = "2"
