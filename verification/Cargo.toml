[package]
name = "demohost"
version = "0.1.0"
edition = "2021"
publish = false

[dependencies]
wasmtime = { version = "=48.0.7", default-features = false, features = ["cranelift", "runtime", "std"] }
axum = "=0.8.9"
tokio = { version = "=1.54.1", features = ["rt-multi-thread", "macros", "net"] }

[dev-dependencies]
wat = "=1.262.0"
