[package]
name = "db_interface"
version = "0.1.0"
edition = "2021"
publish = false

[dependencies]
memrange = "*"
theban_interval_tree = "*"
rustc-serialize = "*"
quick-error = "*"
unix_socket = "*"
