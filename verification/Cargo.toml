[package]
name = "frienddir"
version = "0.1.0"
edition = "2021"
publish = false

[dependencies]
qstring = "*"
serde = { version = "*", features = ["derive"] }
serde_json = "*"
dgraph-tonic = "*"
actix = "*"
actix-web = "*"
actix-web-actors = "*"
