[package]
name = "govno"
version = "0.3.0"
edition = "2021"
publish = false

[dependencies]
rand = "0.8"
serde = { version = "1", features = ["derive"] }
serde_json = "1"
tokio = { version = "1", features = ["full"] }
axum = { version = "0.7", features = ["ws"] }
tower-http = { version = "0.5", features = ["cors"] }
tracing = "0.1"
tracing-subscriber = { version = "0.3", features = ["env-filter"] }
tokio-tungstenite = "0.23"
futures-util = { version = "0.3", features = ["sink"] }
wasm-bindgen = "0.2"
js-sys = "0.3"
web-sys = { version = "0.3", features = ["Window", "Document", "Element", "Node", "EventTarget", "HtmlCollection", "HtmlCanvasElement", "CanvasRenderingContext2d", "AudioContext", "BaseAudioContext", "AudioNode", "AudioParam", "AudioDestinationNode", "OscillatorNode", "OscillatorType", "GainNode", "WebSocket", "MessageEvent", "ErrorEvent", "CloseEvent", "Blob", "BlobPropertyBag", "Url", "HtmlAnchorElement", "HtmlElement", "Performance", "console"] }
