[package]
name = "aurelius"
version = "0.7.0"
edition = "2021"
publish = false

[dependencies]
anyhow = "1"
async-tungstenite = { version = "=0.17.2", features = ["tokio-runtime"] }
futures-util = "0.3"
handlebars = "=4.5.0"
hyper = { version = "=0.14.32", features = ["full"] }
log = "0.4"
pulldown-cmark = { version = "0.9", default-features = false }
thiserror = "1"
tokio = { version = "=1.54.1", features = ["full"] }
tokio-util = { version = "0.6", features = ["compat"] }
