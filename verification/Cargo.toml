[package]
name = "libvirtrs"
version = "0.1.0"
edition = "2021"
publish = false

[dependencies]
dotenv = "0.15"
libc = "0.2"
prost = "0.12"
tokio = { version = "1", features = ["macros", "rt-multi-thread"] }
tonic = "0.11"
tracing = "0.1"
tracing-subscriber = "0.3"
