[package]
name = "turso_rows"
version = "0.1.0"
edition = "2021"
publish = false

[dependencies]
turso_core = "=0.3.2"
