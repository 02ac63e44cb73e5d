[package]
name = "starlink_exporter"
version = "0.1.0"
edition = "2021"
publish = false

[dependencies]
dotenv = "=0.15.0"
prometheus = "=0.13.4"
starlink = "=0.2.0"
thiserror = "=1.0.69"
tokio = { version = "=1.53.2", features = ["macros", "rt-multi-thread", "sync"] }
tonic = "=0.5.2"
tracing = "=0.1.44"
tracing-subscriber = "=0.3.23"
warp = "=0.3.7"
