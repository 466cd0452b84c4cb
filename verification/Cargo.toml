[package]
name = "supervisor"
version = "0.1.0"
edition = "2021"
publish = false

[dependencies]
serde = { version = "=1.0.229", features = ["derive"] }
serde_json = "=1.0.154"
chrono = { version = "=0.4.45", features = ["serde"] }
sha2 = "=0.10.9"
hex = "=0.4.3"
urlencoding = "=2.1.3"
wasmtime = { version = "=46.0.3", default-features = false, features = ["runtime", "cranelift"] }
actix-web = { version = "=4.18.1", default-features = false, features = ["macros"] }
actix-files = "=0.6.10"
actix-multipart = "=0.7.2"
actix-cors = "=0.7.2"
reqwest = { version = "=0.12.28", default-features = false, features = ["json", "multipart"] }
tokio = { version = "=1.54.1", features = ["full"] }
log = "=0.4.35"
env_logger = "=0.11.11"
parking_lot = "=0.12.5"
once_cell = "=1.21.4"
sysinfo = "=0.40.1"
local-ip-address = "=0.6.13"
sanitize-filename = "=0.6.0"
futures-util = "=0.3.34"
serde_urlencoded = "=0.7.1"
dotenv = "=0.15.0"
anyhow = "=1.0.104"
