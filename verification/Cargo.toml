[package]
name = "bookshelf_api"
version = "0.1.0"
edition = "2021"
publish = false

[dependencies]
anyhow = "1"
async-graphql = { version = "7", default-features = false, features = ["dataloader", "playground"] }
async-trait = "0.1"
axum = "0.8"
dotenv = "0.15"
envy = "0.4"
futures-util = "0.3"
jsonwebtoken = "=9.3.1"
regex = "=1.13.1"
reqwest = { version = "0.12", default-features = false, features = ["rustls-tls"] }
serde = { version = "=1.0.229", features = ["derive"] }
serde_json = "=1.0.154"
sqlx = { version = "0.8", default-features = false, features = ["postgres", "runtime-tokio", "uuid", "time", "migrate", "derive"] }
time = "=0.3.55"
tokio = { version = "1", features = ["macros", "rt-multi-thread", "net"] }
tower-http = { version = "0.6", features = ["cors", "trace"] }
tracing-subscriber = "0.3"
uuid = { version = "=1.29.0", features = ["v4"] }

[dev-dependencies]
base64 = "=0.22.1"
rsa = "=0.9.10"
