[package]
name = "bt_http_cli_conf"
version = "0.1.0"
edition = "2021"
publish = false

[dependencies]
bt_logger = "*"
bt_yaml_utils = "*"
yaml-rust2 = "*"
