[package]
name = "weblab_interpreter"
version = "0.1.0"
edition = "2021"
publish = false

[dependencies]
regex = "=1.13.1"
js-sys = "=0.3.106"
wasm-bindgen = "=0.2.129"
wasm-bindgen-futures = "=0.4.79"
web-sys = { version = "=0.3.106", features = ["HtmlElement", "Element", "Node", "EventTarget"] }
futures = "=0.3.34"
lazy_static = "=1.5.1"
ahash = "=0.8.12"
swc = "=80.0.1"
swc_atoms = "=10.0.0"
swc_common = { version = "=26.0.0", features = ["tty-emitter"] }
swc_ecma_ast = "=29.0.2"
swc_ecma_codegen = "=32.0.5"
swc_ecma_parser = "=46.1.2"
swc_ecma_visit = "=29.0.0"
