[package]
name = "deadpool-surrealdb"
version = "0.1.0"
edition = "2021"
publish = false

[dependencies]
deadpool = { version = "=0.12.3", default-features = false, features = ["managed", "rt_tokio_1"] }
deadpool-runtime = { version = "=0.1.4", features = ["tokio_1"] }
serde = { version = "=1.0.229", features = ["derive"] }
thiserror = "=1.0.69"
surrealdb = { version = "=1.5.6", default-features = false }

[dev-dependencies]
tokio = { version = "=1.54.1", features = ["rt", "time"] }
