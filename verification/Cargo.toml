[package]
name = "jaeger_client_rust"
version = "0.1.0"
edition = "2021"
publish = false

[dependencies]
rand = "=0.8.8"
log = "=0.4.34"
thrift = "=0.17.0"
ordered-float = "=2.10.1"
tracing-core = "0.1"
actix-web = { version = "4", default-features = false }
