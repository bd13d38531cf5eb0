[package]
name = "tracemap"
version = "0.1.0"
edition = "2021"
publish = false

[dependencies]
gimli = { version = "=0.31.1", default-features = false, features = ["read", "std"] }
object = { version = "=0.36.7", default-features = false, features = ["read", "std"] }
memmap = "=0.7.0"
