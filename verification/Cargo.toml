[package]
name = "tlsn_verifier"
version = "0.1.0"
edition = "2021"
publish = false

[dependencies]
actix-web = { version = "=4.18.1", default-features = false, features = ["macros"] }
bincode = "=1.3.3"
chrono = { version = "=0.4.45", default-features = false, features = ["std"] }
dotenvy = "=0.15.7"
futures-util = "=0.3.34"
hex = "=0.4.3"
hyper = { version = "=0.14.32", features = ["client", "http1", "tcp"] }
hyperlocal = "=0.8.0"
p256 = { version = "=0.13.2", features = ["ecdsa", "pkcs8", "pem"] }
rand_core = { version = "=0.6.4", features = ["getrandom"] }
serde = { version = "=1.0.229", features = ["derive"] }
serde_json = "=1.0.154"
sha2 = "=0.10.9"
tokio = { version = "=1.54.1", features = ["rt", "macros", "time", "sync", "net"] }

[dev-dependencies]
regex = "1"
