[package]
name = "xbrl_facts"
version = "0.1.0"
edition = "2021"
publish = false

[dependencies]
roxmltree = "=0.21.1"
ammonia = "*"
