[package]
name = "shakespeare"
version = "0.1.0"
edition = "2021"
publish = false

[dependencies]
tokio = { version = "1", features = ["sync", "rt", "time", "macros"] }
futures = "0.3"
pin-project = "1"
trait-variant = "0.1"
syn = { version = "2", features = ["full", "fold", "visit-mut", "extra-traits"] }
quote = "1"
proc-macro2 = "1"
convert_case = "*"
itertools = "*"
