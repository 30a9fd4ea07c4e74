[package]
name = "duckdb_tera_binding"
version = "0.1.0"
edition = "2021"
publish = false

[dependencies]
globwalk = "=0.9.1"
serde_json = "=1.0.151"
tera = "=1.20.1"

[dev-dependencies]
tempfile = "=3.27.0"
