[package]
name = "actix_relay"
version = "0.1.0"
edition = "2021"
publish = false

[dependencies]
actix = "=0.8.3"
actix-broker = "=0.1.8"
bincode = "=1.3.3"
bytes = "=0.4.12"
chrono = "=0.4.19"
futures = "=0.1.31"
log = "=0.4.34"
serde = "=1.0.229"
serde_derive = "=1.0.229"
