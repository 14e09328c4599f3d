[package]
name = "syzygy"
version = "0.1.0"
edition = "2021"
publish = false

[dependencies]
tokio = { version = "1", features = ["rt", "rt-multi-thread", "sync"] }
rayon = "1"
thiserror = "2"
syn = "2"
quote = "1"
proc-macro2 = "1"
