[package]
name = "tram"
version = "0.1.0"
edition = "2021"
publish = false

[dependencies]
clap = { version = "*", features = ["derive"] }
clap_complete = "*"
clap_mangen = "*"
notify = "*"
tokio = { version = "*", features = ["rt", "rt-multi-thread", "sync", "macros", "signal", "time"] }
tracing = "*"
tracing-subscriber = { version = "*", features = ["env-filter", "json"] }
tempfile = "*"
