[package]
name = "cube_world"
version = "0.1.0"
edition = "2021"
publish = false

[dependencies]
image = { version = "*", default-features = false, features = ["jpeg", "png"] }
nalgebra = "*"
nalgebra-glm = "*"
wasm-bindgen = "*"
js-sys = "*"
console_error_panic_hook = "*"
web-sys = { version = "*", features = ["Window", "Document", "Element", "HtmlCanvasElement", "EventTarget", "Event", "KeyboardEvent", "MouseEvent", "WebGl2RenderingContext", "WebGlTexture", "WebGlProgram", "WebGlShader", "WebGlBuffer", "WebGlVertexArrayObject", "WebGlUniformLocation"] }
