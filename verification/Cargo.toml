[package]
name = "rec_wars"
version = "0.1.0"
edition = "2021"
publish = false

[dependencies]
rand = { version = "=0.7.3", features = ["small_rng"] }
rand_distr = "=0.2.2"
vek = "=0.12.1"
thunderdome = "=0.4.2"
fnv = "=1.0.7"
wasm-bindgen = "0.2"
js-sys = "0.3"
web-sys = { version = "0.3", features = ["CanvasRenderingContext2d", "HtmlImageElement"] }
console_error_panic_hook = "0.1"
macroquad = "0.3"
futures = "0.3"
