[package]
name = "boilerplate"
version = "0.1.0"
edition = "2021"
publish = false

[dependencies]
rand = "0.8"
validator = "0.18"
bcrypt = "0.15"
serde = { version = "1", features = ["derive"] }
serde_json = "1"
time = { version = "0.3", features = ["formatting", "parsing"] }
axum = "0.7"
tokio = { version = "1", features = ["macros", "rt-multi-thread", "net"] }
sqlx = { version = "0.7", default-features = false, features = ["mysql", "runtime-tokio", "time"] }
tower-sessions = "0.12"
tower-sessions-redis-store = "0.12"
tower-http = { version = "0.5", features = ["fs", "trace"] }
printpdf = { version = "0.7", default-features = false }
askama = "0.12"
dotenvy = "0.15"
tracing = "0.1"
