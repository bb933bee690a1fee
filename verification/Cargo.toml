[package]
name = "vise_core"
version = "0.1.0"
edition = "2021"
publish = false

[dependencies]
diesel = { version = "2", features = ["sqlite"] }
serde = { version = "1", features = ["derive"] }
