[package]
name = "pdf_reader"
version = "0.1.0"
edition = "2021"
publish = false

[dependencies]
flate2 = "=1.1.10"
flume = "=0.11.1"
image = { version = "=0.25.10", default-features = false, features = ["png"] }
parking_lot = "=0.12.5"
pdfium-render = "=0.8.37"
serde = { version = "=1.0.229", features = ["derive"] }
tar = "=0.4.46"
uuid = { version = "=1.29.0", features = ["v4"] }
