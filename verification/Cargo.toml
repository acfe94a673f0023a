[package]
name = "gif_maker"
version = "0.1.0"
edition = "2021"
publish = false

[dependencies]
opencv = "*"
prettytable-rs = "*"
question = "*"
serde = { version = "1", features = ["derive"] }
serde_json = "1"
unwrap-infallible = "*"
