[package]
name = "tonic-build-protobuf"
version = "0.1.0"
edition = "2021"
publish = false

[dependencies]
bytes = "1"
heck = "0.5"
prettyplease = "0.2"
proc-macro2 = "1"
protobuf = "3"
protobuf-parse = "3"
quote = "1"
syn = { version = "2", features = ["full"] }
tonic = { version = "0.11", default-features = false }
tonic-build = { version = "0.11", default-features = false, features = ["transport"] }
