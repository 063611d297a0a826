[package]
name = "method_taskifier"
version = "0.1.0"
edition = "2021"
publish = false

[dependencies]
convert_case = "*"
log = "0.4"
parking_lot = "0.12"
thiserror = "*"
tokio = { version = "1", features = ["sync", "rt", "macros"] }
syn = { version = "2", features = ["full"] }
quote = "1"
proc-macro2 = "1"
