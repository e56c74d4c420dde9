[package]
name = "achievement_programs"
version = "0.1.0"
edition = "2021"
publish = false

[dependencies]
anchor-lang = "=0.24.2"
anchor-spl = "=0.24.2"
spl-token = { version = "3", features = ["no-entrypoint"] }
