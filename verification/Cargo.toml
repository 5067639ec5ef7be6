[package]
name = "statestack"
version = "0.1.0"
edition = "2021"
publish = false

[dependencies]
js-sys = "=0.3.106"
nalgebra = "=0.32.6"
serde = { version = "=1.0.229", features = ["derive"] }
serde_json = "=1.0.154"
wasm-bindgen = "=0.2.129"
web-sys = { version = "=0.3.106", features = ["CanvasRenderingContext2d", "CanvasWindingRule", "CssStyleDeclaration", "Document", "DomMatrix", "DomMatrixInit", "DomPoint", "Element", "Event", "EventTarget", "HtmlAudioElement", "HtmlCanvasElement", "HtmlElement", "HtmlImageElement", "HtmlMediaElement", "KeyboardEvent", "MouseEvent", "Node", "Performance", "Storage", "TextMetrics", "Touch", "TouchEvent", "TouchList", "UiEvent", "WheelEvent", "Window"] }
