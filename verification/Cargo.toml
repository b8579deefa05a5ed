[package]
name = "ocr_server"
version = "0.1.0"
edition = "2021"
publish = false

[dependencies]
axum = "*"
clap = { version = "*", features = ["cargo"] }
llama_cpp_rs = "*"
serde_json = "*"
tesseract = "*"
thiserror = "*"
tokio = { version = "*", features = ["full"] }
