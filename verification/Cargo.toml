[package]
name = "cw_cli"
version = "0.1.0"
edition = "2021"
publish = false

[dependencies]
clap = "2.33"
colored = "2"
rusoto_core = "0.47"
rusoto_logs = "0.47"
tokio = { version = "1", features = ["macros", "rt-multi-thread"] }
