[package]
name = "loyalty_api"
version = "0.1.0"
edition = "2021"
publish = false

[dependencies]
cookie = { version = "0.18", features = ["private"] }
diesel = { version = "2", features = ["sqlite"] }
rocket = { version = "0.5", features = ["json"] }
rocket_sync_db_pools = { version = "0.1", features = ["diesel_sqlite_pool"] }
thiserror = "1"
validator = "0.16"
