[package]
name = "rig-gemini-grpc"
version = "0.1.0"
edition = "2021"
publish = false

[dependencies]
async-stream = "=0.3.6"
base64 = "=0.22.1"
futures = "=0.3.34"
google-cloud-auth = "=1.18.0"
http = "=1.5.0"
prost = "=0.14.4"
rig-core = { version = "=0.32.0", default-features = false }
serde = { version = "=1.0.229", features = ["derive"] }
serde_json = "=1.0.154"
thiserror = "=2.0.21"
tokio = { version = "=1.54.1", features = ["rt-multi-thread", "sync"] }
tonic = { version = "=0.14.9", features = ["tls-ring", "tls-webpki-roots"] }
tonic-prost = "=0.14.9"
tracing = "=0.1.44"
tracing-futures = { version = "=0.2.5", features = ["futures-03"] }
