[package]
name = "dev_ticker"
version = "0.1.0"
edition = "2021"
publish = false

[dependencies]
actix-cors = "0.7"
actix-rt = "2"
actix-web = "4"
bigdecimal = "0.2"
chrono = "0.4"
num-bigint = "0.3"
num-traits = "0.2"
rand = "0.4"
serde = { version = "1", features = ["derive"] }
serde_json = "1"
structopt = "0.3"
tokio = { version = "1", features = ["time"] }
