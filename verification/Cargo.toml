[package]
name = "texdesk"
version = "0.1.0"
edition = "2021"
publish = false

[dependencies]
notify = "*"
serde = { version = "1", features = ["derive"] }
