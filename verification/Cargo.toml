[package]
name = "bool_query"
version = "0.1.0"
edition = "2021"
publish = false

[dependencies]
search-query-parser = "*"
actix-web = { version = "*", default-features = false, features = ["macros"] }
serde = { version = "*", features = ["derive"] }
serde_json = "*"
