[package]
name = "receipt_printer"
version = "0.1.0"
edition = "2021"
publish = false

[dependencies]
anyhow = "1"
base64 = "*"
escpos = { version = "*", default-features = false }
printers = "*"
serde = { version = "1", features = ["derive"] }
tauri = { version = "2", default-features = false }
