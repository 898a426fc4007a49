[package]
name = "table_viewer"
version = "0.1.0"
edition = "2021"
publish = false

[dependencies]
egui = { version = "=0.24.1", default-features = false }
egui_extras = { version = "=0.24.2", default-features = false }
polars = { version = "*", default-features = false, features = ["csv", "parquet", "avro", "temporal", "rows"] }
