[package]
name = "ondc_websocket"
version = "0.1.0"
edition = "2021"
publish = false

[dependencies]
actix = "=0.13.5"
actix-http = { version = "=3.19.0", features = ["ws"] }
actix-web = { version = "=4.18.1", default-features = false, features = ["macros", "cookies", "ws"] }
actix-web-actors = "=4.3.1"
anyhow = "=1.0.104"
chrono = { version = "=0.4.45", default-features = false, features = ["clock"] }
config = { version = "=0.14.1", default-features = false }
futures = "=0.3.34"
jsonwebtoken = "=9.3.1"
pulsar = { version = "=6.9.1", default-features = false, features = ["tokio-runtime"] }
secrecy = { version = "=0.10.3", features = ["serde"] }
serde = { version = "=1.0.229", features = ["derive"] }
serde_json = "=1.0.154"
tokio = { version = "=1.54.1", features = ["sync", "rt", "macros"] }
tracing = "=0.1.44"
tracing-actix-web = "=0.7.25"
utoipa = { version = "5", features = ["actix_extras", "uuid"] }
utoipa-swagger-ui = { version = "9", features = ["actix-web"] }
utoipauto = "0.2"
uuid = { version = "=1.29.0", features = ["serde"] }
