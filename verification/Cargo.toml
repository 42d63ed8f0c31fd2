[package]
name = "blog_api"
version = "0.1.0"
edition = "2021"
publish = false

[dependencies]
sha2 = "*"
hmac = "*"
rand = "*"
urlencoding = "*"
axum = "*"
tokio = { version = "*", features = ["full"] }
serde = { version = "*", features = ["derive"] }
serde_json = "*"
diesel = { version = "*", features = ["postgres", "r2d2", "chrono", "numeric"] }
diesel-derive-enum = { version = "*", features = ["postgres"] }
chrono = "*"
bigdecimal = "*"
anyhow = "*"
thiserror = "*"
cuid2 = "*"
reqwest = { version = "*", default-features = false, features = ["json"] }
futures = "*"
tower-http = { version = "*", features = ["cors", "trace"] }
tracing = "*"
tracing-subscriber = { version = "*", features = ["env-filter"] }
dotenvy = "*"
jsonwebtoken = "*"
lettre = { version = "*", default-features = false, features = ["smtp-transport", "builder", "hostname", "tokio1", "tokio1-rustls-tls"] }

[dev-dependencies]
hex = "*"
