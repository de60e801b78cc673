[package]
name = "drummond"
version = "0.1.0"
edition = "2021"
publish = false

[dependencies]
anyhow = "1"
ctrlc = "3"
midir = "0.10"
midly = { version = "0.5", default-features = false, features = ["alloc", "std"] }
rustyline = "*"
serialport5 = "*"
tracing = "0.1"
tracing-subscriber = "0.3"
