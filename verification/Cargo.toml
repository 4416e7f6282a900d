[package]
name = "cliprelay"
version = "0.1.0"
edition = "2021"
publish = false

[dependencies]
anyhow = "=1.0.104"
arboard = "=3.6.1"
clap = { version = "=4.6.7", features = ["derive"] }
device_query = "=4.0.1"
either = "=1.19.0"
enigo = "=0.6.1"
indexmap = "=2.14.2"
log = "=0.4.34"
tokio = { version = "=1.53.2", features = ["macros", "rt-multi-thread", "net", "io-util", "time", "sync"] }
