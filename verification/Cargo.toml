[package]
name = "analyzer_host"
version = "0.1.0"
edition = "2021"
publish = false

[dependencies]
async-channel = "1"
cancellation = "0.1"
futures = "0.3"
lsp-types = "0.94"
notify = "6"
regex = "1"
serde_json = "1"
tokio = { version = "1", features = ["fs"] }
url = "2"
xflags = "0.3"
