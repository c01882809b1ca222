[package]
name = "lua_runtime"
version = "0.1.0"
edition = "2021"
publish = false

[dependencies]
anyhow = "1"
crossbeam = "*"
dashmap = "*"
governor = "*"
mlua = { version = "*", features = ["lua54", "vendored"] }
serde = { version = "1", features = ["derive"] }
thiserror = "*"
tokio = { version = "*", features = ["rt", "rt-multi-thread", "time"] }
