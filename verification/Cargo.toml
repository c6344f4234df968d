[package]
name = "charsheet"
version = "0.1.0"
edition = "2021"
publish = false

[dependencies]
dioxus = { version = "0.2.4", features = ["fermi"] }
serde = { version = "1", features = ["derive"] }
strum = { version = "0.24", features = ["derive"] }
