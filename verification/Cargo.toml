[package]
name = "dir_link"
version = "0.1.0"
edition = "2021"
publish = false

[dependencies]
ratatui = "*"
tui-input = "*"
serde = { version = "*", features = ["derive"] }
serde_json = "*"
directories = "*"
color-eyre = "*"
unicode-width = "*"
