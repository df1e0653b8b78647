[package]
name = "gateway_rs"
version = "0.1.0"
edition = "2021"
publish = false

[dependencies]
helium-crypto = "=0.11.0"
http = "=1.5.0"
http-serde = "=2.1.1"
k256 = { version = "=0.13.4", default-features = false, features = ["arithmetic"] }
semtech-udp = { version = "=0.6.1", features = ["server"] }
serde = { version = "=1.0.229", features = ["derive"] }
slog = "=2.8.2"
tokio = { version = "=1.54.1", features = ["macros", "sync", "time", "rt"] }
triggered = "=0.1.3"

[dev-dependencies]
serde_json = "=1.0.154"
