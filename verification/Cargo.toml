[package]
name = "menu_builder"
version = "0.1.0"
edition = "2021"
publish = false

[dependencies]
rust_decimal = "1"
csv = "1"
serde = { version = "1", features = ["derive"] }
ron = "0.8"
chrono = "0.4"
directories = "5"
