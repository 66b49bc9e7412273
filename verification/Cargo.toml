[package]
name = "office_to_png_core"
version = "0.1.0"
edition = "2021"
publish = false

[dependencies]
png = "*"
num_cpus = "*"
tokio = { version = "*", features = ["full"] }
futures = "*"
async-process = "*"
tempfile = "*"
uuid = { version = "*", features = ["v4"] }
which = "*"
pdfium-render = "*"
