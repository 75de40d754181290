[package]
name = "sqlide"
version = "0.1.0"
edition = "2021"
publish = false

[dependencies]
cli-log = "=2.1.1"
crossterm = "=0.27.0"
deadpool = { version = "=0.10.0", default-features = false, features = ["managed", "rt_tokio_1"] }
deadpool-postgres = "=0.12.1"
ratatui = "=0.26.3"
tokio = { version = "=1.54.1", features = ["macros", "rt-multi-thread"] }
tokio-postgres = "=0.7.18"
