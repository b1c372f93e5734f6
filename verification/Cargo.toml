[package]
name = "docserve"
version = "0.1.0"
edition = "2021"
publish = false

[dependencies]
etag = "*"
httpdate = "1"
hyper = { version = "0.14", features = ["server", "http1", "tcp"] }
tokio = { version = "1", features = ["rt-multi-thread", "macros"] }
bb8-postgres = "*"
log = "0.4"
simple_logger = "*"
dotenv = "0.15"
sentry = { version = "*", default-features = false }
