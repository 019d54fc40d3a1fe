[package]
name = "gasconade"
version = "0.1.0"
edition = "2021"
publish = false

[dependencies]
regex = "=1.13.1"
iron = "=0.6.1"
router = "=0.6.0"
params = "=0.8.0"
persistent = "=0.4.0"
logger = "=0.4.0"
mustache = "=0.9.0"
mime = "=0.2.6"
postgres = "=0.19.14"
r2d2 = "=0.8.10"
r2d2_postgres = "=0.18.2"
schemamama = "=0.3.0"
schemamama_postgres = "=0.3.0"
reqwest = "=0.9.24"
serde = { version = "=1.0.229", features = ["derive"] }
serde_yaml = "=0.8.26"
log = "=0.4.34"
log4rs = "=0.8.3"
