[package]
name = "mailspool"
version = "0.1.0"
edition = "2021"
publish = false

[dependencies]
uuid = { version = "*", features = ["v4"] }
actix-web = "*"
actix-web-httpauth = "*"
clap = { version = "*", features = ["derive"] }
log = "*"
simple_logger = "*"
