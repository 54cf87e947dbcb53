[package]
name = "scorefeed"
version = "0.1.0"
edition = "2021"
publish = false

[dependencies]
clap = { version = "=4.6.7", features = ["derive"] }
confy = "=2.0.0"
crossbeam-channel = "=0.5.17"
directories = "=6.0.0"
log = "=0.4.34"
log4rs = "=1.4.0"
log-panics = "=2.1.0"
serde = { version = "=1.0.229", features = ["derive"] }
tokio = { version = "=1.53.2", features = ["net", "time", "io-util", "rt"] }
