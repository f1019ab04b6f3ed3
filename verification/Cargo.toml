[package]
name = "acton_ern"
version = "0.1.0"
edition = "2021"
publish = false

[dependencies]
type-safe-id = "*"
uuid = { version = "*", features = ["v4", "v7"] }
