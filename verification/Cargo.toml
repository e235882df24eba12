[package]
name = "eventsource-rs"
version = "0.1.0"
edition = "2021"
publish = false

[dependencies]
serde_json = "1"
serde = { version = "1", features = ["derive"] }
sse-client = "*"
ureq = { version = "2", default-features = false, features = ["json"] }
tokio = { version = "1", features = ["macros", "rt-multi-thread"] }
js-sys = "0.3"
web-sys = { version = "0.3", features = ["Event", "EventSource", "EventTarget", "MessageEvent"] }
