[package]
name = "mass_events"
version = "0.1.0"
edition = "2021"
publish = false

[dependencies]
askama = "*"
axum = { version = "*", features = ["macros"] }
chrono = { version = "*", features = ["serde"] }
clap = { version = "*", features = ["derive", "env"] }
cron = "*"
dotenvy = "*"
hyper = "*"
reqwest = { version = "*", default-features = false, features = ["json"] }
serde = { version = "*", features = ["derive"] }
serde_json = "*"
serde_merge = "*"
serde_yaml = "*"
serde_yml = "*"
sqlx = { version = "*", default-features = false, features = ["postgres", "runtime-tokio", "uuid", "chrono", "json", "macros", "derive"] }
tokio = { version = "*", features = ["full"] }
tokio-cron-scheduler = "*"
tower-http = { version = "*", features = ["trace"] }
tracing = "*"
tracing-subscriber = "*"
utoipa = { version = "*", features = ["axum_extras", "uuid", "chrono"] }
utoipa-swagger-ui = { version = "*", features = ["axum", "vendored"] }
uuid = { version = "*", features = ["v4", "serde"] }
