[package]
name = "duplex_audio"
version = "0.1.0"
edition = "2021"
publish = false

[dependencies]
mach2 = "=0.7.0"
objc2-core-audio = { version = "=0.3.2", default-features = false, features = ["std", "AudioHardware", "AudioHardwareDeprecated", "objc2-core-audio-types"] }
objc2-core-audio-types = { version = "=0.3.2", default-features = false, features = ["std", "bitflags", "CoreAudioBaseTypes"] }
objc2-core-foundation = { version = "=0.3.2", default-features = false, features = ["std", "CFString"] }
