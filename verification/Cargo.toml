[package]
name = "yew_webgl"
version = "0.1.0"
edition = "2021"
publish = false

[dependencies]
yew = "0.19"
gloo = "0.8"
glam = "0.20"
rand = "0.8"
wasm-bindgen = "0.2"
web-sys = { version = "0.3", features = ["Window", "Document", "HtmlCanvasElement", "WebGl2RenderingContext", "WebGlProgram", "WebGlShader", "WebGlUniformLocation", "WebGlBuffer", "WebGlVertexArrayObject", "KeyboardEvent", "MouseEvent", "Event"] }
