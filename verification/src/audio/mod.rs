//! The audio path: frame sizes, channel handling and the voice packet.

pub mod encode;
pub mod microphone;
