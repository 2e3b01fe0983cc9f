[package]
name = "petring"
version = "0.1.0"
edition = "2021"
publish = false

[dependencies]
askama = "=0.16.1"
async-trait = "=0.1.92"
axum = "=0.8.9"
axum-extra = { version = "=0.12.6", features = ["cookie-private", "routing"] }
axum-server = { version = "=0.8.0", default-features = false, features = ["tls-rustls-no-provider"] }
chrono = { version = "=0.4.45", default-features = false, features = ["clock"] }
clap = { version = "=4.6.7", features = ["derive"] }
dotenvy = "=0.15.7"
humantime = "=2.4.0"
jsonwebtoken = { version = "=9.3.1", default-features = false }
once_cell = "=1.21.4"
rand = "=0.9.5"
rustls = { version = "=0.23.46", default-features = false, features = ["ring", "std"] }
sea-orm = { version = "=1.1.20", default-features = false, features = ["macros", "runtime-tokio", "sqlx-sqlite"] }
sea-orm-migration = { version = "=1.1.20", default-features = false, features = ["runtime-tokio", "sqlx-sqlite"] }
serde = { version = "=1.0.229", features = ["derive"] }
serde_json = { version = "=1.0.154", features = ["preserve_order"] }
tokio = { version = "=1.54.1", features = ["fs", "io-util", "macros", "net", "rt-multi-thread", "sync"] }
toml = "=1.1.8"
tower = { version = "=0.5.3", features = ["util"] }
tower-http = { version = "=0.7.1", features = ["compression-gzip", "compression-zstd", "cors", "decompression-gzip", "fs", "set-header", "trace"] }
tracing = { version = "=0.1.44", features = ["log"] }
tracing-subscriber = "=0.3.23"
uuid = { version = "=1.29.0", features = ["v4"] }
