[package]
name = "piano_staff"
version = "0.1.0"
edition = "2021"
publish = false

[dependencies]
leptos = { version = "0.7", default-features = false, features = ["csr"] }
yew = { version = "0.21", features = ["csr"] }
wasm-bindgen = "0.2"
web-sys = { version = "0.3", features = ["AudioContext", "AudioContextState", "AudioDestinationNode", "AudioNode", "AudioParam", "AudioScheduledSourceNode", "BaseAudioContext", "BiquadFilterNode", "BiquadFilterType", "GainNode", "OscillatorNode", "OscillatorType", "CanvasRenderingContext2d", "HtmlCanvasElement", "Element"] }
