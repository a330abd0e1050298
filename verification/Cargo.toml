[package]
name = "coap"
version = "0.1.0"
edition = "2021"
publish = false

[dependencies]
actix = "=0.8.3"
arrayvec = "=0.4.12"
byteorder = "=1.5.0"
bytes = "=0.4.12"
chrono = "=0.4.19"
futures = "=0.1.31"
lazy_static = "1"
log = "0.4"
rand = "=0.6.5"
tokio = "=0.1.22"
