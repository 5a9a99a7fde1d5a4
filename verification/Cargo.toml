[package]
name = "todo_cli"
version = "0.1.0"
edition = "2021"
publish = false

[dependencies]
clap = { version = "=4.6.7", features = ["derive"] }
directories = "=6.0.0"
rusqlite = { version = "=0.40.2", features = ["array", "bundled", "fallible_uint"] }
thiserror = "=2.0.21"
