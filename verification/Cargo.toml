[package]
name = "dp_sql"
version = "0.1.0"
edition = "2021"
publish = false

[dependencies]
qrlew = "*"
qrlew-sarus = "*"
