[package]
name = "todo_api"
version = "0.1.0"
edition = "2021"
publish = false

[dependencies]
sea-query = "0.30"
sea-query-binder = { version = "0.5", features = ["sqlx-postgres"] }
sqlx = { version = "0.7", features = ["postgres", "runtime-tokio", "uuid", "macros", "migrate"] }
axum = "0.6"
aide = { version = "0.11", features = ["axum"] }
schemars = { version = "0.8", features = ["uuid1"] }
serde = { version = "1", features = ["derive"] }
serde_json = "1"
uuid = { version = "1", features = ["serde", "v4"] }
tower-http = { version = "0.4", features = ["cors"] }
tracing = "0.1"
tracing-subscriber = "0.3"
tracing-appender = "0.2"
dotenvy = "0.15"
axum-tracing-opentelemetry = "0.12"
init-tracing-opentelemetry = { version = "0.12", features = ["tracing_subscriber_ext"] }
tokio = { version = "1", features = ["full"] }
