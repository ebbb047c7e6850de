[package]
name = "ureq_core"
version = "0.1.0"
edition = "2021"
publish = false

[dependencies]
http = "=1.5.0"
ureq-proto = "=0.2.5"
flate2 = "=1.1.10"
brotli-decompressor = "=4.0.3"
encoding_rs = "=0.8.42"

[dev-dependencies]
assert_no_alloc = "=1.1.2"
