[package]
name = "material_theme"
version = "0.1.0"
edition = "2021"
publish = false

[dependencies]
dark-light = "*"
iced_widget = "*"
serde = { version = "*", features = ["derive"] }
