[package]
name = "tide-compress"
version = "0.1.0"
edition = "2021"
publish = false

[dependencies]
async-compression = { version = "0.3", features = ["futures-io", "brotli", "gzip", "deflate"] }
futures-lite = "1"
tide = { version = "0.16", default-features = false }
