[package]
name = "log4rs_test_utils"
version = "0.1.0"
edition = "2021"
publish = false

[dependencies]
anyhow = "1"
lazy_static = "1"
log = "0.4"
log4rs = "1"
