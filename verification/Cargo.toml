[package]
name = "typefree"
version = "0.1.0"
edition = "2021"
publish = false

[dependencies]
base64 = "*"
serde = { version = "*", features = ["derive"] }
serde_json = "*"
reqwest = { version = "*", default-features = false, features = ["rustls-tls", "multipart", "json"] }
tokio = { version = "*", features = ["rt-multi-thread", "sync", "time", "macros", "process", "fs"] }
rusqlite = { version = "*", features = ["bundled"] }
arboard = "*"
enigo = "*"
image = { version = "*", default-features = false, features = ["png"] }
