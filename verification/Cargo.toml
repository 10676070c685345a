[package]
name = "momir_oracle"
version = "0.1.0"
edition = "2021"
publish = false

[dependencies]
rand = "=0.10.3"
chrono = "=0.4.45"
uuid = { version = "=1.29.1", features = ["v4"] }
reqwest = { version = "=0.13.5", default-features = false, features = ["json"] }
serde = { version = "=1.0.229", features = ["derive"] }
serde_json = "=1.0.154"
tokio = { version = "=1.54.1", features = ["full"] }
image = { version = "=0.25.10", default-features = false, features = ["png"] }
swash = "=0.2.10"
resvg = "=0.49.0"
tiny-skia = "=0.12.0"
dithr = "=0.3.0"
escpos = { version = "=0.20.1", features = ["graphics"] }
async-compression = { version = "=0.4.52", features = ["tokio", "gzip"] }
tempfile = "=3.27.0"
config = "=0.15.27"
tracing = "=0.1.44"
tracing-subscriber = { version = "=0.3.23", features = ["env-filter", "json"] }
tracing-appender = "=0.2.5"
axum = { version = "=0.8.9", features = ["ws"] }
tower-http = { version = "=0.7.1", features = ["fs"] }
thiserror = "=2.0.21"
anyhow = "=1.0.104"
async-trait = "=0.1.92"
grass = "=0.13.4"
log = "=0.4.35"
