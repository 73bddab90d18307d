[package]
name = "bert"
version = "0.1.0"
edition = "2021"
publish = false

[dependencies]
atomic-counter = "1"
futures = "0.1"
tokio = "0.1"
tokio-core = "0.1"
tokio-io = "0.1"
bytes = "0.4"
websocket = "0.26"
ws = "0.9"
iron = "0.6"
