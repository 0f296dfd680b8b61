[package]
name = "media_sweeper"
version = "0.1.0"
edition = "2021"
publish = false

[dependencies]
color-eyre = "*"
dialoguer = "*"
tokio = { version = "*", features = ["macros", "rt-multi-thread"] }
